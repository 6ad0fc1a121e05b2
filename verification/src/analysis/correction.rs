//! How far a performance met an exercise.

use std::collections::HashMap;
use vstd::prelude::*;
use vstd::string::StringExecFns;
use vstd::std_specs::hash::group_hash_axioms;
use crate::analysis::mistake::Mistake;

verus! {

/// A score as a fraction: the part of the beats that had no mistake is
/// `1 - mistakes / amount_of_beats`. There is at least one beat.
#[derive(Debug, Clone, Copy, PartialEq, Eq, Structural)]
pub struct Score {
    pub mistakes: usize,
    pub amount_of_beats: usize,
}

impl Score {
    /// Whether this score is lower than `other`. With `m` mistakes in `n` beats
    /// and `m'` in `n'`, `1 - m / n < 1 - m' / n'` says the same as
    /// `m' * n < m * n'`.
    pub open spec fn lower_than(self, other: Score) -> bool {
        other.mistakes * self.amount_of_beats < self.mistakes * other.amount_of_beats
    }

    /// Whether the score is 1: no beat had a mistake.
    pub open spec fn is_full(self) -> bool {
        self.mistakes == 0
    }
}

/// To what extent an analysis of a performance meets an exercise.
#[derive(Debug, Clone)]
pub struct Correction {
    pub amount_of_beats: usize,
    /// The beats on which something wrong was played, each with its mistake.
    pub mistakes: HashMap<u32, Mistake>,
}

/// The mistakes made on the beats below `beats`, in the order of the beats, one
/// to a line.
pub open spec fn listed_mistakes(mistakes: Map<u32, Mistake>, beats: nat) -> Seq<char>
    decreases beats,
{
    if beats == 0 {
        Seq::empty()
    } else {
        let beat = (beats - 1) as u32;
        listed_mistakes(mistakes, (beats - 1) as nat) + if beats - 1 <= u32::MAX
            && mistakes.contains_key(beat) {
            mistakes[beat].spec_text() + seq!['\n']
        } else {
            Seq::empty()
        }
    }
}

impl Correction {
    /// The mistakes made on the beats of the correction, in the order of the
    /// beats, one to a line.
    pub fn list(&self) -> (r: String)
        ensures
            r@ == listed_mistakes(self.mistakes@, self.amount_of_beats as nat),
    {
        broadcast use group_hash_axioms;

        let mut text = String::new();
        let mut count: usize = 0;
        while count < self.amount_of_beats
            invariant
                0 <= count <= self.amount_of_beats,
                text@ == listed_mistakes(self.mistakes@, count as nat),
            decreases self.amount_of_beats - count,
        {
            if count <= u32::MAX as usize {
                let beat = count as u32;
                if let Some(mistake) = self.mistakes.get(&beat) {
                    let line = mistake.text();
                    text.append(line.as_str());
                    text.append("\n");
                    proof {
                        reveal_strlit("\n");
                        assert("\n"@ =~= seq!['\n']);
                        assert(text@ =~= listed_mistakes(self.mistakes@, count as nat)
                            + (self.mistakes@[beat].spec_text() + seq!['\n']));
                    }
                }
            }
            count += 1;
        }
        text
    }

    /// What `score` gives for a number of beats and the mistakes made.
    pub open spec fn score_of(amount_of_beats: usize, mistakes: nat) -> Option<Score> {
        if amount_of_beats > 0 && mistakes <= usize::MAX {
            Some(Score { mistakes: mistakes as usize, amount_of_beats })
        } else {
            None
        }
    }

    /// The score, unless nothing was played: without a beat there is no score.
    pub fn score(&self) -> (r: Option<Score>)
        ensures
            r == Correction::score_of(self.amount_of_beats, self.mistakes@.len()),
            r is Some <==> self.amount_of_beats > 0,
    {
        broadcast use group_hash_axioms;

        if self.amount_of_beats == 0 {
            None
        } else {
            Some(Score { mistakes: self.mistakes.len(), amount_of_beats: self.amount_of_beats })
        }
    }
}

/// A performance without a mistake has the full score, and every mistake more on
/// the same number of beats lowers the score.
pub proof fn score_falls_with_mistakes(amount_of_beats: usize, fewer: nat, more: nat)
    requires
        amount_of_beats > 0,
        fewer < more <= usize::MAX,
    ensures
        Correction::score_of(amount_of_beats, 0) is Some,
        Correction::score_of(amount_of_beats, 0)->0.is_full(),
        Correction::score_of(amount_of_beats, more)->0.lower_than(
            Correction::score_of(amount_of_beats, fewer)->0,
        ),
        !Correction::score_of(amount_of_beats, more)->0.is_full(),
{
    assert(fewer * amount_of_beats < more * amount_of_beats) by (nonlinear_arith)
        requires
            fewer < more,
            amount_of_beats > 0,
    ;
}

/// Where no beat was played there is no score, whatever the mistakes.
pub proof fn no_score_without_beats(mistakes: nat)
    ensures
        Correction::score_of(0, mistakes) is None,
{
}

} // verus!

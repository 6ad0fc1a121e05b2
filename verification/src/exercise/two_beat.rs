//! Two half notes to the bar: the root, and then a tone from a short list.

use vstd::prelude::*;
use vstd::string::{StrSliceExecFns, StringExecFns};
use crate::analysis::analysis::Analysis;
use crate::analysis::correction::Correction;
use crate::analysis::mistake::MistakeKind;
use crate::exercise::{correct_by, expect_tone, must_be, Exercise, Incompatible, Kind, Rule, Verdict};
use crate::form::chord::{pitch_of_tone, Chord, ChordTone};
use crate::form::note::Note;

verus! {

pub struct TwoBeat {
    pub allowed_chord_tones_in_second_half: Vec<ChordTone>,
}

/// The second half note must be the third.
pub fn two_beat_thirds() -> (r: TwoBeat)
    ensures
        r.allowed_chord_tones_in_second_half@ == seq![ChordTone::Third],
{
    TwoBeat { allowed_chord_tones_in_second_half: vec![ChordTone::Third] }
}

/// The second half note must be the fifth.
pub fn two_beat_fifths() -> (r: TwoBeat)
    ensures
        r.allowed_chord_tones_in_second_half@ == seq![ChordTone::Fifth],
{
    TwoBeat { allowed_chord_tones_in_second_half: vec![ChordTone::Fifth] }
}

/// The second half note may be the third or the fifth.
pub fn two_beat() -> (r: TwoBeat)
    ensures
        r.allowed_chord_tones_in_second_half@ == seq![ChordTone::Third, ChordTone::Fifth],
{
    TwoBeat { allowed_chord_tones_in_second_half: vec![ChordTone::Third, ChordTone::Fifth] }
}

/// What the exercise makes of a note that has the role `tone` in the chord of
/// its beat. On the first beat of a bar the note must be the root, and on the
/// third one of the allowed tones; the second and fourth beat are free. Where
/// the note on the third beat is not allowed, the mistake names the note that
/// the chord has for `pick`, one of the allowed tones picked for it; without a
/// pick, or where the chord lacks the tone, the exercise does not fit the chord.
pub open spec fn two_beat_verdict(
    allowed: Seq<ChordTone>,
    beat: u32,
    note: Note,
    tone: ChordTone,
    chord: Chord,
    pick: Option<ChordTone>,
) -> Verdict {
    if beat % 4 == 0 {
        must_be(ChordTone::Root, note, tone, chord)
    } else if beat % 4 != 2 || allowed.contains(tone) {
        Verdict::Correct
    } else {
        match pick {
            Some(picked) => if pitch_of_tone(chord@.pitches, picked) is Some {
                Verdict::Wrong(
                    MistakeKind::ExpectedChordTone {
                        played_chord_tone: tone,
                        played_note: note,
                        expected_example: chord.notes@[picked.position()],
                    },
                )
            } else {
                Verdict::Incompatible
            },
            None => Verdict::Incompatible,
        }
    }
}

/// The tones of a list, each after a comma and a blank.
pub open spec fn listed(tones: Seq<ChordTone>) -> Seq<char>
    decreases tones.len(),
{
    if tones.len() == 0 {
        Seq::empty()
    } else {
        listed(tones.drop_last()) + seq![',', ' '] + tones.last().spec_text()
    }
}

/// Whether a list of tones holds a tone.
pub fn holds(tones: &Vec<ChordTone>, tone: ChordTone) -> (r: bool)
    ensures
        r == tones@.contains(tone),
{
    let mut i: usize = 0;
    while i < tones.len()
        invariant
            0 <= i <= tones.len(),
            forall|j: int| 0 <= j < i ==> tones@[j] != tone,
        decreases tones.len() - i,
    {
        if tones[i] == tone {
            return true;
        }
        i += 1;
    }
    false
}

impl TwoBeat {
    /// What is said of the second half note: the one allowed tone by name, or
    /// the list of the allowed tones without its last character.
    pub open spec fn second_half(allowed: Seq<ChordTone>) -> Seq<char> {
        if allowed.len() == 1 {
            "The second must be the "@ + allowed[0].spec_text()
        } else if allowed.len() == 0 {
            "The second must be either "@
        } else {
            "The second must be either "@ + listed(allowed).drop_last()
        }
    }

    pub open spec fn explanation(allowed: Seq<ChordTone>) -> Seq<char> {
        "Play two half notes per measure. The first half note must be the root. "@
            + TwoBeat::second_half(allowed)
    }

    /// Whether the verdict on a beat needs one of the allowed tones as an example.
    pub fn needs_pick(&self, beat: u32, tone: ChordTone) -> (r: bool)
        ensures
            r == (beat % 4 == 2 && !self.allowed_chord_tones_in_second_half@.contains(tone)),
    {
        beat % 4 == 2 && !holds(&self.allowed_chord_tones_in_second_half, tone)
    }

    /// Judges the note of one beat, with `pick` as the allowed tone to name where
    /// the note on the third beat is not allowed.
    pub fn judge(
        &self,
        beat: u32,
        note: Note,
        tone: ChordTone,
        chord: &Chord,
        pick: Option<ChordTone>,
    ) -> (r: Verdict)
        ensures
            r == two_beat_verdict(
                self.allowed_chord_tones_in_second_half@,
                beat,
                note,
                tone,
                *chord,
                pick,
            ),
    {
        if beat % 4 == 0 {
            expect_tone(ChordTone::Root, note, tone, chord)
        } else if beat % 4 != 2 || holds(&self.allowed_chord_tones_in_second_half, tone) {
            Verdict::Correct
        } else {
            let example = match pick {
                Some(picked) => chord.note(picked),
                None => None,
            };
            match example {
                Some(expected_example) => Verdict::Wrong(
                    MistakeKind::ExpectedChordTone {
                        played_chord_tone: tone,
                        played_note: note,
                        expected_example,
                    },
                ),
                None => Verdict::Incompatible,
            }
        }
    }
}

impl Exercise for TwoBeat {
    open spec fn rule(&self) -> Rule {
        Rule::TwoBeat { allowed: self.allowed_chord_tones_in_second_half@ }
    }

    fn explain(&self) -> (r: String)
        ensures
            r@ == TwoBeat::explanation(self.allowed_chord_tones_in_second_half@),
    {
        let allowed = &self.allowed_chord_tones_in_second_half;
        let mut text = String::from_str(
            "Play two half notes per measure. The first half note must be the root. ",
        );
        if allowed.len() == 1 {
            text.append("The second must be the ");
            let only = allowed[0].text();
            text.append(only.as_str());
        } else {
            text.append("The second must be either ");
            let mut list = String::new();
            let mut i: usize = 0;
            while i < allowed.len()
                invariant
                    0 <= i <= allowed.len(),
                    list@ == listed(allowed@.take(i as int)),
                decreases allowed.len() - i,
            {
                list.append(", ");
                let tone = allowed[i].text();
                list.append(tone.as_str());
                proof {
                    reveal_strlit(", ");
                    assert(", "@ =~= seq![',', ' ']);
                    assert(allowed@.take(i + 1).drop_last() =~= allowed@.take(i as int));
                    assert(allowed@.take(i + 1).last() == allowed@[i as int]);
                }
                i += 1;
            }
            proof {
                assert(allowed@.take(i as int) =~= allowed@);
            }
            let length = list.as_str().unicode_len();
            if length > 0 {
                let trimmed = list.as_str().substring_char(0, length - 1);
                assert(trimmed@ =~= listed(allowed@).drop_last());
                text.append(trimmed);
            } else {
                proof {
                    if allowed@.len() > 0 {
                        assert(listed(allowed@).len() >= 2);
                    }
                }
            }
        }
        text
    }

    fn correct(&mut self, analysis: &Analysis) -> (r: Result<Correction, Incompatible>) {
        correct_by(Kind::TwoBeat(&*self), analysis)
    }
}

} // verus!

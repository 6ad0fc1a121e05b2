//! Exercises: rule sets that say what must be played on each beat, and the
//! correction of an analysis against one.

pub mod arpeggios_up;
pub mod chord_tones;
pub mod two_beat;

use rand::seq::IndexedRandom;
use std::collections::HashMap;
use vstd::prelude::*;
use vstd::std_specs::hash::group_hash_axioms;
use crate::analysis::analysis::{Analysis, NoteAnalysis};
use crate::analysis::correction::Correction;
use crate::analysis::mistake::{Mistake, MistakeKind};
use crate::form::chord::{Chord, ChordTone};
use crate::form::form::FormPiece;
use crate::form::key::Degree;
use crate::form::note::Note;
use crate::exercise::arpeggios_up::{arpeggio_verdict, ArpeggiosUp};
use crate::exercise::chord_tones::{chord_tones_verdict, ChordTones};
use crate::exercise::two_beat::{two_beat_verdict, TwoBeat};

verus! {

/// The exercise asks for a tone that the chord of a beat does not have: it
/// cannot be played over this form.
#[derive(Debug, Clone, Copy, PartialEq, Eq, Structural)]
pub struct Incompatible {
    /// The first beat on which the exercise cannot be met.
    pub beat: u32,
}

/// What an exercise makes of one beat.
#[derive(Debug, Clone, Copy, PartialEq)]
pub enum Verdict {
    /// Nothing to object to.
    Correct,
    /// The beat breaks the rule, in this way.
    Wrong(MistakeKind),
    /// The rule asks for a tone that the chord lacks.
    Incompatible,
}

/// The rule sets.
pub enum Rule {
    /// Root, third, fifth and seventh on the four beats of each bar.
    ArpeggiosUp,
    /// The root on the first beat of each bar, and chord tones after it.
    ChordTones,
    /// The root on the first beat of each bar, and one of the given tones on the
    /// third.
    TwoBeat { allowed: Seq<ChordTone> },
}

/// Whether `pick` can come of picking one of `items`: one of them, or nothing
/// where there are none.
pub open spec fn can_be_picked<T>(items: Seq<T>, pick: Option<T>) -> bool {
    match pick {
        Some(item) => items.contains(item),
        None => items.len() == 0,
    }
}

/// Picks one of `items` at random. Calls `choose` of rand's `IndexedRandom` on
/// the items as a slice, with the generator of the thread: it gives one of the
/// items, or nothing where there are none. Which one is left open.
#[verifier::external_body]
pub(crate) fn pick_one<T: Copy>(items: &Vec<T>) -> (pick: Option<T>)
    ensures
        can_be_picked(items@, pick),
{
    items.as_slice().choose(&mut rand::rng()).copied()
}

/// The chord that sounds on `beat` under a piece: the chord of a bar, and of a
/// half bar the first chord on the first two beats of the bar and the second
/// chord on the last two.
pub open spec fn active_chord(piece: FormPiece, beat: u32) -> Option<Chord> {
    match piece {
        FormPiece::ChordBar(chord) => Some(chord),
        FormPiece::HalfBar(first, second) => if beat % 4 < 2 {
            Some(first)
        } else {
            Some(second)
        },
        _ => None,
    }
}

/// The mistake that every exercise finds in a beat before its own rule is
/// asked: a sound during the count-off, or no note under a chord.
pub open spec fn common_mistake(piece: FormPiece, found: NoteAnalysis) -> Option<MistakeKind> {
    match piece {
        FormPiece::CountOff => if found is Silence {
            None
        } else {
            Some(MistakeKind::ExpectedSilence { found })
        },
        FormPiece::ChordBar(_) | FormPiece::HalfBar(_, _) => if found is Note {
            None
        } else {
            Some(MistakeKind::ExpectedNote { found })
        },
        _ => None,
    }
}

/// Checks a beat for what every exercise asks: silence during the count-off, and
/// a note under a chord. A mistake goes into `mistakes` under the beat, in place
/// of what stood there. Where the beat has a note under a chord, the note, its
/// degree, its role and the chord come back for the rule of the exercise.
pub fn common_mistakes<'a>(
    mistakes: &mut HashMap<u32, Mistake>,
    beat: u32,
    form_piece: &'a FormPiece,
    note_analysis: NoteAnalysis,
) -> (r: Option<(Note, Degree, ChordTone, &'a Chord)>)
    ensures
        final(mistakes)@ == match common_mistake(*form_piece, note_analysis) {
            Some(kind) => old(mistakes)@.insert(beat, Mistake { beat, mistake: kind }),
            None => old(mistakes)@,
        },
        match r {
            Some((note, degree, tone, chord)) => {
                &&& note_analysis == (NoteAnalysis::Note {
                    note,
                    degree_in_key: degree,
                    role_in_chord: tone,
                })
                &&& active_chord(*form_piece, beat) == Some(*chord)
            },
            None => !(note_analysis is Note && active_chord(*form_piece, beat) is Some),
        },
{
    broadcast use group_hash_axioms;

    match form_piece {
        FormPiece::CountOff => {
            match note_analysis {
                NoteAnalysis::Silence => {},
                _ => {
                    mistakes.insert(
                        beat,
                        Mistake { beat, mistake: MistakeKind::ExpectedSilence { found: note_analysis } },
                    );
                },
            }
            None
        },
        FormPiece::ChordBar(chord) => note_or_mistake(mistakes, beat, chord, note_analysis),
        FormPiece::HalfBar(chord1, chord2) => {
            let active = if beat % 4 < 2 {
                chord1
            } else {
                chord2
            };
            note_or_mistake(mistakes, beat, active, note_analysis)
        },
        _ => None,
    }
}

/// The note of a beat under a chord, or the mistake of there being none.
fn note_or_mistake<'a>(
    mistakes: &mut HashMap<u32, Mistake>,
    beat: u32,
    chord: &'a Chord,
    note_analysis: NoteAnalysis,
) -> (r: Option<(Note, Degree, ChordTone, &'a Chord)>)
    ensures
        final(mistakes)@ == if note_analysis is Note {
            old(mistakes)@
        } else {
            old(mistakes)@.insert(
                beat,
                Mistake { beat, mistake: MistakeKind::ExpectedNote { found: note_analysis } },
            )
        },
        match r {
            Some((note, degree, tone, held)) => {
                &&& note_analysis == (NoteAnalysis::Note {
                    note,
                    degree_in_key: degree,
                    role_in_chord: tone,
                })
                &&& held == chord
            },
            None => !(note_analysis is Note),
        },
{
    broadcast use group_hash_axioms;

    match note_analysis {
        NoteAnalysis::Note { note, degree_in_key, role_in_chord } => Some(
            (note, degree_in_key, role_in_chord, chord),
        ),
        _ => {
            mistakes.insert(
                beat,
                Mistake { beat, mistake: MistakeKind::ExpectedNote { found: note_analysis } },
            );
            None
        },
    }
}

/// The verdict on a note that must be the tone `target` of its chord: wrong
/// unless it is that tone, with the note that the chord has for the tone as the
/// one expected; and a chord without the tone does not fit the exercise.
pub open spec fn must_be(target: ChordTone, note: Note, tone: ChordTone, chord: Chord) -> Verdict {
    if tone == target {
        Verdict::Correct
    } else if target != ChordTone::NoChordTone && target.position() < chord.notes@.len() {
        Verdict::Wrong(
            MistakeKind::WrongNote { played: note, expected: chord.notes@[target.position()] },
        )
    } else {
        Verdict::Incompatible
    }
}

/// Judges a note that must be the tone `target` of its chord.
pub fn expect_tone(target: ChordTone, note: Note, tone: ChordTone, chord: &Chord) -> (r: Verdict)
    ensures
        r == must_be(target, note, tone, *chord),
{
    if tone == target {
        return Verdict::Correct;
    }
    match chord.note(target) {
        Some(expected) => Verdict::Wrong(MistakeKind::WrongNote { played: note, expected }),
        None => Verdict::Incompatible,
    }
}

/// Whether a rule set can come to `verdict` on a note with the role `tone` in
/// the chord of its beat. Where a rule names an example in a mistake, every note
/// that can be picked for it gives a verdict that the rule can come to.
pub open spec fn permits(
    rule: Rule,
    beat: u32,
    note: Note,
    tone: ChordTone,
    chord: Chord,
    verdict: Verdict,
) -> bool {
    match rule {
        Rule::ArpeggiosUp => verdict == arpeggio_verdict(beat, note, tone, chord),
        Rule::ChordTones => exists|example: Option<Note>|
            can_be_picked(chord.notes@, example) && verdict == #[trigger] chord_tones_verdict(
                beat,
                note,
                tone,
                chord,
                example,
            ),
        Rule::TwoBeat { allowed } => exists|pick: Option<ChordTone>|
            can_be_picked(allowed, pick) && verdict == #[trigger] two_beat_verdict(
                allowed,
                beat,
                note,
                tone,
                chord,
                pick,
            ),
    }
}

/// Whether a rule set can come to `verdict` on a beat of an analysis: the
/// mistake that every exercise finds, if there is one; else, for a note under a
/// chord, what the rule makes of it; else nothing.
pub open spec fn permits_beat(
    rule: Rule,
    piece: FormPiece,
    found: NoteAnalysis,
    beat: u32,
    verdict: Verdict,
) -> bool {
    match common_mistake(piece, found) {
        Some(kind) => verdict == Verdict::Wrong(kind),
        None => match (found, active_chord(piece, beat)) {
            (NoteAnalysis::Note { note, degree_in_key: _, role_in_chord }, Some(chord)) => permits(
                rule,
                beat,
                note,
                role_in_chord,
                chord,
                verdict,
            ),
            _ => verdict == Verdict::Correct,
        },
    }
}

/// Whether a rule set can come to a verdict on a beat of an analysis without
/// asking the chord for a tone that it lacks.
pub open spec fn can_pass(rule: Rule, piece: FormPiece, found: NoteAnalysis, beat: u32) -> bool {
    exists|verdict: Verdict|
        verdict != Verdict::Incompatible && #[trigger] permits_beat(
            rule,
            piece,
            found,
            beat,
            verdict,
        )
}

/// The verdict that a set of mistakes records for a beat.
pub open spec fn recorded(mistakes: Map<u32, Mistake>, beat: u32) -> Verdict {
    if mistakes.contains_key(beat) {
        Verdict::Wrong(mistakes[beat].mistake)
    } else {
        Verdict::Correct
    }
}

/// Whether `result` is a correction of `analysis` by `rule`. A correction counts
/// the beats of the analysis and records for each of them a verdict that the rule
/// can come to, each mistake under its own beat. A failure names the first beat
/// on which the rule asked the chord for a tone that it lacks.
pub open spec fn corrects(rule: Rule, analysis: Analysis, result: Result<Correction, Incompatible>) -> bool {
    let beats = analysis.beat_analysis@;
    match result {
        Ok(correction) => {
            &&& correction.amount_of_beats == beats.len()
            &&& forall|beat: u32| #[trigger]
                correction.mistakes@.contains_key(beat) ==> beats.contains_key(beat)
                    && correction.mistakes@[beat].beat == beat
            &&& forall|beat: u32| #[trigger]
                beats.contains_key(beat) ==> permits_beat(
                    rule,
                    beats[beat].0,
                    beats[beat].1,
                    beat,
                    recorded(correction.mistakes@, beat),
                )
        },
        Err(failure) => {
            &&& beats.contains_key(failure.beat)
            &&& permits_beat(
                rule,
                beats[failure.beat].0,
                beats[failure.beat].1,
                failure.beat,
                Verdict::Incompatible,
            )
            &&& forall|beat: u32|
                beat < failure.beat ==> #[trigger] can_pass(
                    rule,
                    beats[beat].0,
                    beats[beat].1,
                    beat,
                )
        },
    }
}

/// A named rule set that says what must be played on each beat.
pub trait Exercise {
    /// The rule set that the exercise corrects by.
    spec fn rule(&self) -> Rule;

    /// What must be played for a perfect score, in words for the player.
    fn explain(&self) -> String;

    /// Holds every beat of an analysis against the rule set. It fails where the
    /// rule asks a chord of the form for a tone that the chord does not have.
    fn correct(&mut self, analysis: &Analysis) -> (r: Result<Correction, Incompatible>)
        requires
            analysis.covers_its_beats(),
        ensures
            final(self).rule() == old(self).rule(),
            corrects(old(self).rule(), *analysis, r),
    ;
}

/// A rule set with what it needs to judge a beat.
pub(crate) enum Kind<'a> {
    ArpeggiosUp,
    ChordTones,
    TwoBeat(&'a TwoBeat),
}

impl<'a> Kind<'a> {
    pub(crate) open spec fn rule(self) -> Rule {
        match self {
            Kind::ArpeggiosUp => Rule::ArpeggiosUp,
            Kind::ChordTones => Rule::ChordTones,
            Kind::TwoBeat(exercise) => Rule::TwoBeat {
                allowed: exercise.allowed_chord_tones_in_second_half@,
            },
        }
    }
}

/// Judges a note by a rule set, picking an example where the rule names one.
fn judge_note(kind: &Kind<'_>, beat: u32, note: Note, tone: ChordTone, chord: &Chord) -> (r: Verdict)
    ensures
        permits(kind.rule(), beat, note, tone, *chord, r),
{
    match kind {
        Kind::ArpeggiosUp => ArpeggiosUp::judge(beat, note, tone, chord),
        Kind::ChordTones => {
            if ChordTones::needs_example(beat, tone) {
                let example = pick_one(&chord.notes);
                let verdict = ChordTones::judge(beat, note, tone, chord, example);
                assert(can_be_picked(chord.notes@, example) && verdict == chord_tones_verdict(
                    beat,
                    note,
                    tone,
                    *chord,
                    example,
                ));
                verdict
            } else {
                let verdict = ChordTones::judge(beat, note, tone, chord, None);
                proof {
                    let example = if chord.notes@.len() == 0 {
                        None
                    } else {
                        Some(chord.notes@[0])
                    };
                    assert(can_be_picked(chord.notes@, example) && verdict == chord_tones_verdict(
                        beat,
                        note,
                        tone,
                        *chord,
                        example,
                    ));
                }
                verdict
            }
        },
        Kind::TwoBeat(exercise) => {
            let ghost allowed = exercise.allowed_chord_tones_in_second_half@;
            if exercise.needs_pick(beat, tone) {
                let pick = pick_one(&exercise.allowed_chord_tones_in_second_half);
                let verdict = exercise.judge(beat, note, tone, chord, pick);
                assert(can_be_picked(allowed, pick) && verdict == two_beat_verdict(
                    allowed,
                    beat,
                    note,
                    tone,
                    *chord,
                    pick,
                ));
                verdict
            } else {
                let verdict = exercise.judge(beat, note, tone, chord, None);
                proof {
                    let pick = if allowed.len() == 0 {
                        None
                    } else {
                        Some(allowed[0])
                    };
                    assert(can_be_picked(allowed, pick) && verdict == two_beat_verdict(
                        allowed,
                        beat,
                        note,
                        tone,
                        *chord,
                        pick,
                    ));
                }
                verdict
            }
        },
    }
}

/// Holds every beat of an analysis against a rule set, from the first beat on.
pub(crate) fn correct_by(kind: Kind<'_>, analysis: &Analysis) -> (r: Result<
    Correction,
    Incompatible,
>)
    requires
        analysis.covers_its_beats(),
    ensures
        corrects(kind.rule(), *analysis, r),
{
    broadcast use group_hash_axioms;

    let ghost rule = kind.rule();
    let ghost beats = analysis.beat_analysis@;
    let mut mistakes: HashMap<u32, Mistake> = HashMap::new();
    let amount = analysis.beat_analysis.len();
    let mut count: usize = 0;
    while count < amount
        invariant
            0 <= count <= amount,
            amount == beats.len(),
            amount <= u32::MAX,
            beats == analysis.beat_analysis@,
            rule == kind.rule(),
            analysis.covers_its_beats(),
            forall|beat: u32| #[trigger]
                mistakes@.contains_key(beat) ==> beat < count && mistakes@[beat].beat == beat,
            forall|beat: u32|
                beat < count ==> #[trigger] permits_beat(
                    rule,
                    beats[beat].0,
                    beats[beat].1,
                    beat,
                    recorded(mistakes@, beat),
                ),
            forall|beat: u32|
                beat < count ==> #[trigger] can_pass(rule, beats[beat].0, beats[beat].1, beat),
        decreases amount - count,
    {
        let beat = count as u32;
        assert(beats.contains_key(beat));
        let ghost before = mistakes@;
        if let Some(entry) = analysis.beat_analysis.get(&beat) {
            assert(*entry == beats[beat]);
            if let Some((note, _degree, tone, chord)) = common_mistakes(
                &mut mistakes,
                beat,
                &entry.0,
                entry.1,
            ) {
                let verdict = judge_note(&kind, beat, note, tone, chord);
                match verdict {
                    Verdict::Correct => {},
                    Verdict::Wrong(mistake) => {
                        mistakes.insert(beat, Mistake { beat, mistake });
                    },
                    Verdict::Incompatible => {
                        assert(permits_beat(rule, entry.0, entry.1, beat, verdict));
                        return Err(Incompatible { beat });
                    },
                }
                assert(permits_beat(rule, entry.0, entry.1, beat, verdict));
                assert(recorded(mistakes@, beat) == verdict);
            } else {
                assert(permits_beat(rule, entry.0, entry.1, beat, recorded(mistakes@, beat)));
            }
        }
        proof {
            assert(permits_beat(rule, beats[beat].0, beats[beat].1, beat, recorded(mistakes@, beat)));
            assert(recorded(mistakes@, beat) != Verdict::Incompatible);
            assert(can_pass(rule, beats[beat].0, beats[beat].1, beat));
            assert forall|other: u32| other < count implies #[trigger] permits_beat(
                rule,
                beats[other].0,
                beats[other].1,
                other,
                recorded(mistakes@, other),
            ) by {
                assert(recorded(mistakes@, other) == recorded(before, other));
            }
        }
        count += 1;
    }
    Ok(Correction { amount_of_beats: amount, mistakes })
}

/// Silence during the count-off is no mistake under any rule set: the one
/// verdict on such a beat is that it is correct.
pub proof fn silent_count_off_is_correct(rule: Rule, beat: u32, verdict: Verdict)
    ensures
        permits_beat(rule, FormPiece::CountOff, NoteAnalysis::Silence, beat, verdict) <==> verdict
            == Verdict::Correct,
{
}

/// A sound during the count-off is a mistake under every rule set, and the
/// mistake says what was found.
pub proof fn sound_in_count_off_is_a_mistake(
    rule: Rule,
    found: NoteAnalysis,
    beat: u32,
    verdict: Verdict,
)
    requires
        !(found is Silence),
    ensures
        permits_beat(rule, FormPiece::CountOff, found, beat, verdict) <==> verdict
            == Verdict::Wrong(MistakeKind::ExpectedSilence { found }),
{
}

/// What an exercise that names no example makes of a beat is decided: arpeggios
/// up permits one verdict and no other.
pub proof fn arpeggios_are_decided(
    beat: u32,
    note: Note,
    tone: ChordTone,
    chord: Chord,
    first: Verdict,
    second: Verdict,
)
    requires
        permits(Rule::ArpeggiosUp, beat, note, tone, chord, first),
        permits(Rule::ArpeggiosUp, beat, note, tone, chord, second),
    ensures
        first == second,
{
}

} // verus!

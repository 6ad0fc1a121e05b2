//! The root on the one, and chord tones on the other beats.

use vstd::prelude::*;
use vstd::string::StringExecFns;
use crate::analysis::analysis::Analysis;
use crate::analysis::correction::Correction;
use crate::analysis::mistake::MistakeKind;
use crate::exercise::{correct_by, expect_tone, must_be, Exercise, Incompatible, Kind, Rule, Verdict};
use crate::form::chord::{Chord, ChordTone};
use crate::form::note::Note;

verus! {

pub struct ChordTones {}

/// What the exercise makes of a note that has the role `tone` in the chord of
/// its beat. On the first beat of a bar the note must be the root. On the other
/// beats it must be a tone of the chord; where it is none, the mistake names
/// `example`, a note of the chord picked for it, and a chord without notes has
/// none to name.
pub open spec fn chord_tones_verdict(
    beat: u32,
    note: Note,
    tone: ChordTone,
    chord: Chord,
    example: Option<Note>,
) -> Verdict {
    if beat % 4 == 0 {
        must_be(ChordTone::Root, note, tone, chord)
    } else if tone != ChordTone::NoChordTone {
        Verdict::Correct
    } else {
        match example {
            Some(expected_example) => Verdict::Wrong(
                MistakeKind::ExpectedChordTone {
                    played_chord_tone: tone,
                    played_note: note,
                    expected_example,
                },
            ),
            None => Verdict::Incompatible,
        }
    }
}

impl ChordTones {
    pub open spec fn explanation() -> Seq<char> {
        "Play the root on the 1, and any chord tone on any beat."@
    }

    /// Whether the verdict on a beat needs a note of the chord as an example.
    pub fn needs_example(beat: u32, tone: ChordTone) -> (r: bool)
        ensures
            r == (beat % 4 != 0 && tone == ChordTone::NoChordTone),
    {
        beat % 4 != 0 && tone == ChordTone::NoChordTone
    }

    /// Judges the note of one beat, with `example` as the note to name where the
    /// note is no chord tone.
    pub fn judge(beat: u32, note: Note, tone: ChordTone, chord: &Chord, example: Option<Note>) -> (r:
        Verdict)
        ensures
            r == chord_tones_verdict(beat, note, tone, *chord, example),
    {
        if beat % 4 == 0 {
            expect_tone(ChordTone::Root, note, tone, chord)
        } else if tone != ChordTone::NoChordTone {
            Verdict::Correct
        } else {
            match example {
                Some(expected_example) => Verdict::Wrong(
                    MistakeKind::ExpectedChordTone {
                        played_chord_tone: tone,
                        played_note: note,
                        expected_example,
                    },
                ),
                None => Verdict::Incompatible,
            }
        }
    }
}

impl Exercise for ChordTones {
    open spec fn rule(&self) -> Rule {
        Rule::ChordTones
    }

    fn explain(&self) -> (r: String)
        ensures
            r@ == ChordTones::explanation(),
    {
        String::from_str("Play the root on the 1, and any chord tone on any beat.")
    }

    fn correct(&mut self, analysis: &Analysis) -> (r: Result<Correction, Incompatible>) {
        correct_by(Kind::ChordTones, analysis)
    }
}

} // verus!

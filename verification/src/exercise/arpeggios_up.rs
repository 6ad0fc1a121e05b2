//! The chord from the root up, one tone on each beat.

use vstd::prelude::*;
use vstd::string::StringExecFns;
use crate::analysis::analysis::Analysis;
use crate::analysis::correction::Correction;
use crate::exercise::{correct_by, expect_tone, must_be, Exercise, Incompatible, Kind, Rule, Verdict};
use crate::form::chord::{Chord, ChordTone};
use crate::form::note::Note;

verus! {

pub struct ArpeggiosUp {}

/// The tone that the exercise asks for on a beat: root, third, fifth and seventh
/// on the four beats of the bar, and the root again in place of a seventh that
/// the chord does not have.
pub open spec fn arpeggio_tone(beat: u32, chord: Chord) -> ChordTone {
    if beat % 4 == 0 {
        ChordTone::Root
    } else if beat % 4 == 1 {
        ChordTone::Third
    } else if beat % 4 == 2 {
        ChordTone::Fifth
    } else if chord.notes@.len() > 3 {
        ChordTone::Seventh
    } else {
        ChordTone::Root
    }
}

/// What the exercise makes of a note that has the role `tone` in the chord of
/// its beat.
pub open spec fn arpeggio_verdict(beat: u32, note: Note, tone: ChordTone, chord: Chord) -> Verdict {
    must_be(arpeggio_tone(beat, chord), note, tone, chord)
}

impl ArpeggiosUp {
    pub open spec fn explanation() -> Seq<char> {
        "On every first beat, play the root of the chord. On every second beat the third, then the fifth, then the seventh. If the chord defines no seventh, play the root again."@
    }

    /// Judges the note of one beat: it is wrong unless it is the tone that the
    /// beat asks for, and the mistake names the note that was asked for.
    pub fn judge(beat: u32, note: Note, tone: ChordTone, chord: &Chord) -> (r: Verdict)
        ensures
            r == arpeggio_verdict(beat, note, tone, *chord),
    {
        let beat_in_bar = beat % 4;
        let target = if beat_in_bar == 0 {
            ChordTone::Root
        } else if beat_in_bar == 1 {
            ChordTone::Third
        } else if beat_in_bar == 2 {
            ChordTone::Fifth
        } else if chord.has_seventh() {
            ChordTone::Seventh
        } else {
            ChordTone::Root
        };
        expect_tone(target, note, tone, chord)
    }
}

impl Exercise for ArpeggiosUp {
    open spec fn rule(&self) -> Rule {
        Rule::ArpeggiosUp
    }

    fn explain(&self) -> (r: String)
        ensures
            r@ == ArpeggiosUp::explanation(),
    {
        String::from_str(
            "On every first beat, play the root of the chord. On every second beat the third, then the fifth, then the seventh. If the chord defines no seventh, play the root again.",
        )
    }

    fn correct(&mut self, analysis: &Analysis) -> (r: Result<Correction, Incompatible>) {
        correct_by(Kind::ArpeggiosUp, analysis)
    }
}

} // verus!

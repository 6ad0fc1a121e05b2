//! The exercises that can be selected for a recording pass.

use vstd::prelude::*;
use vstd::string::StringExecFns;
use crate::analysis::analysis::Analysis;
use crate::analysis::correction::Correction;
use crate::exercise::arpeggios_up::ArpeggiosUp;
use crate::exercise::chord_tones::ChordTones;
use crate::exercise::two_beat::{two_beat, two_beat_fifths, two_beat_thirds};
use crate::exercise::{corrects, Exercise, Incompatible, Rule};
use crate::form::chord::ChordTone;
use crate::form::form::Form;
use crate::transcribe::transcribe::Transcription;

verus! {

#[derive(Debug, Clone, Copy, PartialEq, Eq, Structural)]
pub enum ExerciseKind {
    ArpeggiosUp,
    ChordTones,
    TwoBeatFifths,
    TwoBeatThirds,
    TwoBeat,
}

impl ExerciseKind {
    /// The rule set of each kind.
    pub open spec fn rule(self) -> Rule {
        match self {
            ExerciseKind::ArpeggiosUp => Rule::ArpeggiosUp,
            ExerciseKind::ChordTones => Rule::ChordTones,
            ExerciseKind::TwoBeatFifths => Rule::TwoBeat { allowed: seq![ChordTone::Fifth] },
            ExerciseKind::TwoBeatThirds => Rule::TwoBeat { allowed: seq![ChordTone::Third] },
            ExerciseKind::TwoBeat => Rule::TwoBeat {
                allowed: seq![ChordTone::Third, ChordTone::Fifth],
            },
        }
    }

    pub open spec fn name(self) -> Seq<char> {
        match self {
            ExerciseKind::ArpeggiosUp => "Arpeggios Up"@,
            ExerciseKind::ChordTones => "Chord Tones"@,
            ExerciseKind::TwoBeatFifths => "Two Beat, Fifths"@,
            ExerciseKind::TwoBeatThirds => "Two Beat, Thirds"@,
            ExerciseKind::TwoBeat => "Two Beat, Any chord tone"@,
        }
    }

    /// Corrects an analysis by the exercise of this kind.
    pub fn correct(&self, analysis: &Analysis) -> (r: Result<Correction, Incompatible>)
        requires
            analysis.covers_its_beats(),
        ensures
            corrects(self.rule(), *analysis, r),
    {
        match self {
            ExerciseKind::ArpeggiosUp => {
                let mut exercise = ArpeggiosUp {  };
                exercise.correct(analysis)
            },
            ExerciseKind::ChordTones => {
                let mut exercise = ChordTones {  };
                exercise.correct(analysis)
            },
            ExerciseKind::TwoBeatFifths => {
                let mut exercise = two_beat_fifths();
                exercise.correct(analysis)
            },
            ExerciseKind::TwoBeatThirds => {
                let mut exercise = two_beat_thirds();
                exercise.correct(analysis)
            },
            ExerciseKind::TwoBeat => {
                let mut exercise = two_beat();
                exercise.correct(analysis)
            },
        }
    }

    /// Analyzes a transcription against a form and corrects the analysis by the
    /// exercise of this kind: what a finished recording pass publishes.
    pub fn evaluate(&self, transcription: Transcription, form: &Form) -> (r: (
        Analysis,
        Result<Correction, Incompatible>,
    ))
        ensures
            r.0.is_analysis_of(form@, transcription.notes@),
            corrects(self.rule(), r.0, r.1),
    {
        let analysis = Analysis::analyze(transcription, form);
        let correction = self.correct(&analysis);
        (analysis, correction)
    }

    /// The kinds that can be selected, in the order in which they are offered.
    pub fn all() -> (r: Vec<ExerciseKind>)
        ensures
            r@ == seq![
                ExerciseKind::ArpeggiosUp,
                ExerciseKind::ChordTones,
                ExerciseKind::TwoBeatFifths,
                ExerciseKind::TwoBeatThirds,
                ExerciseKind::TwoBeat,
            ],
    {
        vec![
            ExerciseKind::ArpeggiosUp,
            ExerciseKind::ChordTones,
            ExerciseKind::TwoBeatFifths,
            ExerciseKind::TwoBeatThirds,
            ExerciseKind::TwoBeat,
        ]
    }

    /// The name of the exercise.
    pub fn text(&self) -> (r: String)
        ensures
            r@ == self.name(),
    {
        match self {
            ExerciseKind::ArpeggiosUp => String::from_str("Arpeggios Up"),
            ExerciseKind::ChordTones => String::from_str("Chord Tones"),
            ExerciseKind::TwoBeatFifths => String::from_str("Two Beat, Fifths"),
            ExerciseKind::TwoBeatThirds => String::from_str("Two Beat, Thirds"),
            ExerciseKind::TwoBeat => String::from_str("Two Beat, Any chord tone"),
        }
    }
}

} // verus!

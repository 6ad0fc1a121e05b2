//! Distances between notes, in semitones.

use vstd::prelude::*;
use crate::form::note::Note;

verus! {

/// The named distances of up to an octave. Three names stand for six semitones.
#[derive(Debug, Clone, Copy, PartialEq, Eq, Structural)]
pub enum Interval {
    Unison,
    MinorSecond,
    MajorSecond,
    MinorThird,
    MajorThird,
    PerfectFourth,
    AugmentedFourth,
    Tritone,
    DiminishedFifth,
    PerfectFifth,
    MinorSixth,
    MajorSixth,
    MinorSeventh,
    MajorSeventh,
    Octave,
}

impl Interval {
    pub open spec fn spec_steps(self) -> int {
        match self {
            Interval::Unison => 0,
            Interval::MinorSecond => 1,
            Interval::MajorSecond => 2,
            Interval::MinorThird => 3,
            Interval::MajorThird => 4,
            Interval::PerfectFourth => 5,
            Interval::AugmentedFourth | Interval::Tritone | Interval::DiminishedFifth => 6,
            Interval::PerfectFifth => 7,
            Interval::MinorSixth => 8,
            Interval::MajorSixth => 9,
            Interval::MinorSeventh => 10,
            Interval::MajorSeventh => 11,
            Interval::Octave => 12,
        }
    }

    /// The interval that a distance is called by; six semitones are a tritone.
    pub open spec fn spec_from_steps(steps: int) -> Option<Interval> {
        if steps == 0 {
            Some(Interval::Unison)
        } else if steps == 1 {
            Some(Interval::MinorSecond)
        } else if steps == 2 {
            Some(Interval::MajorSecond)
        } else if steps == 3 {
            Some(Interval::MinorThird)
        } else if steps == 4 {
            Some(Interval::MajorThird)
        } else if steps == 5 {
            Some(Interval::PerfectFourth)
        } else if steps == 6 {
            Some(Interval::Tritone)
        } else if steps == 7 {
            Some(Interval::PerfectFifth)
        } else if steps == 8 {
            Some(Interval::MinorSixth)
        } else if steps == 9 {
            Some(Interval::MajorSixth)
        } else if steps == 10 {
            Some(Interval::MinorSeventh)
        } else if steps == 11 {
            Some(Interval::MajorSeventh)
        } else if steps == 12 {
            Some(Interval::Octave)
        } else {
            None
        }
    }

    /// The ascending distance from `bottom` up to `top`, in `0..12`.
    pub open spec fn ascent(bottom: Note, top: Note) -> int {
        (top.pitch() - bottom.pitch()) % 12
    }

    pub fn steps(&self) -> (r: i32)
        ensures
            r == self.spec_steps(),
            0 <= r <= 12,
    {
        match self {
            Interval::Unison => 0,
            Interval::MinorSecond => 1,
            Interval::MajorSecond => 2,
            Interval::MinorThird => 3,
            Interval::MajorThird => 4,
            Interval::PerfectFourth => 5,
            Interval::AugmentedFourth | Interval::Tritone | Interval::DiminishedFifth => 6,
            Interval::PerfectFifth => 7,
            Interval::MinorSixth => 8,
            Interval::MajorSixth => 9,
            Interval::MinorSeventh => 10,
            Interval::MajorSeventh => 11,
            Interval::Octave => 12,
        }
    }

    pub fn from_steps(steps: i32) -> (r: Option<Interval>)
        ensures
            r == Interval::spec_from_steps(steps as int),
            r is Some <==> 0 <= steps <= 12,
            r is Some ==> r->0.spec_steps() == steps,
    {
        match steps {
            0 => Some(Interval::Unison),
            1 => Some(Interval::MinorSecond),
            2 => Some(Interval::MajorSecond),
            3 => Some(Interval::MinorThird),
            4 => Some(Interval::MajorThird),
            5 => Some(Interval::PerfectFourth),
            6 => Some(Interval::Tritone),
            7 => Some(Interval::PerfectFifth),
            8 => Some(Interval::MinorSixth),
            9 => Some(Interval::MajorSixth),
            10 => Some(Interval::MinorSeventh),
            11 => Some(Interval::MajorSeventh),
            12 => Some(Interval::Octave),
            _ => None,
        }
    }

    /// The ascending interval from `bottom` to `top`. It is less than an octave,
    /// and a unison where the two are the same note.
    pub fn find(bottom: Note, top: Note) -> (r: Option<Interval>)
        ensures
            r == Interval::spec_from_steps(Interval::ascent(bottom, top)),
            r is Some,
            r->0.spec_steps() == Interval::ascent(bottom, top),
    {
        let top_index: i32 = top.add_steps(0).index();
        let bottom_index: i32 = bottom.add_steps(0).index();
        let distance: i32 = if top_index < bottom_index {
            top_index + 12 - bottom_index
        } else {
            top_index - bottom_index
        };
        Interval::from_steps(distance)
    }
}

/// Taking the distance of an interval and naming that distance again gives an
/// interval of the same distance.
pub proof fn steps_round_trip(interval: Interval)
    ensures
        Interval::spec_from_steps(interval.spec_steps()) is Some,
        Interval::spec_from_steps(interval.spec_steps())->0.spec_steps() == interval.spec_steps(),
{
}

/// Adding the interval found between two notes to the lower one gives the upper one.
pub proof fn interval_spans(bottom: Note, top: Note)
    ensures
        (bottom.pitch() + Interval::ascent(bottom, top)) % 12 == top.pitch(),
{
}

} // verus!

//! The notes that were heard, beat by beat: where each beat lies in the
//! recording, which bin of its spectrum holds the root, and what the beat
//! counts as.
//!
//! The spectrum itself and the arithmetic on frequencies are done on floating
//! point numbers by the caller. What is decided here is decided on whole
//! numbers: sample positions, and the power of each bin as a number that is
//! larger exactly where the power is.

use vstd::prelude::*;
use crate::form::note::Note;

verus! {

/// What was heard on one beat.
#[derive(Debug, Clone, Copy, PartialEq)]
pub enum PlayedNote {
    /// A pitch that lies close enough to a note.
    Surely(Note),
    /// Sound whose pitch lies between two notes.
    Unknown,
    /// Nothing louder than the silence threshold.
    Silence,
}

/// The notes of a recording, one for each beat from its start.
#[derive(Debug)]
pub struct Transcription {
    pub notes: Vec<PlayedNote>,
}

/// How the audio was sampled.
#[derive(Debug, Clone, Copy)]
pub struct AudioSettings {
    pub sample_rate: u32,
}

/// The part of each beat that is listened to, in hundredths of the beat from
/// its start. The attack at the start and what bleeds in from the next note
/// are left out.
#[derive(Debug, Clone, Copy, PartialEq, Eq, Structural)]
pub struct WindowOffsets {
    pub start_percent: u32,
    pub end_percent: u32,
}

/// What was measured on one beat: the note nearest to the root, where the pitch
/// lies close enough to one, and whether the beat stays below the silence
/// threshold.
#[derive(Debug, Clone, Copy)]
pub struct BeatReading {
    pub pitch: Option<Note>,
    pub quiet: bool,
}

/// `a / b` rounded to the nearest whole number, halves upwards.
pub open spec fn rounded(a: int, b: int) -> int
    recommends
        a >= 0,
        b > 0,
{
    (2 * a + b) / (2 * b)
}

/// The samples of one beat: `sample_rate * 60 / tempo` rounded, with the tempo
/// in thousandths of a beat per minute.
pub open spec fn beat_length(sample_rate: u32, tempo: u32) -> int
    recommends
        tempo > 0,
{
    rounded(sample_rate * 60000, tempo as int)
}

/// Where the part of a beat that is listened to starts and ends, for the beat
/// number `beat` of a recording with `samples_per_beat` samples to the beat.
pub open spec fn window_of(beat: int, samples_per_beat: int, offsets: WindowOffsets) -> (int, int) {
    (
        beat * samples_per_beat + rounded(samples_per_beat * offsets.start_percent, 100),
        beat * samples_per_beat + rounded(samples_per_beat * offsets.end_percent, 100),
    )
}

/// The whole beats that a recording holds. What is left behind the last whole
/// beat is not a beat.
pub open spec fn whole_beats(samples: int, samples_per_beat: int) -> int {
    if samples_per_beat <= 0 {
        0
    } else {
        samples / samples_per_beat
    }
}

/// What a beat counts as: silence where it stays below the threshold,
/// whatever pitch was found in it; else the note that was found, or unknown.
pub open spec fn heard(pitch: Option<Note>, quiet: bool) -> PlayedNote {
    if quiet {
        PlayedNote::Silence
    } else {
        match pitch {
            Some(note) => PlayedNote::Surely(note),
            None => PlayedNote::Unknown,
        }
    }
}

/// The samples of one beat, unless the tempo is 0 or the number does not fit.
pub fn samples_per_beat(sample_rate: u32, tempo: u32) -> (r: Option<usize>)
    ensures
        r is Some <==> tempo > 0 && beat_length(sample_rate, tempo) <= usize::MAX,
        r is Some ==> r->0 == beat_length(sample_rate, tempo),
{
    if tempo == 0 {
        return None;
    }
    let doubled: u64 = 2 * (sample_rate as u64 * 60000);
    let length: u64 = (doubled + tempo as u64) / (2 * tempo as u64);
    if length > usize::MAX as u64 {
        None
    } else {
        Some(length as usize)
    }
}

/// `length * percent / 100`, rounded.
fn part_of(length: usize, percent: u32) -> (r: usize)
    requires
        percent <= 100,
    ensures
        r == rounded(length * percent, 100),
        r <= length,
{
    assert(length * percent <= length * 100) by (nonlinear_arith)
        requires
            0 <= length,
            0 <= percent <= 100,
    ;
    let scaled: u128 = length as u128 * percent as u128;
    let part: u128 = (2 * scaled + 100) / 200;
    part as usize
}

/// `part_of` grows with the percentage.
proof fn part_grows(length: int, less: int, more: int)
    requires
        0 <= length,
        0 <= less <= more,
    ensures
        rounded(length * less, 100) <= rounded(length * more, 100),
{
    let smaller = length * less;
    let larger = length * more;
    assert(smaller <= larger) by (nonlinear_arith)
        requires
            smaller == length * less,
            larger == length * more,
            0 <= length,
            0 <= less <= more,
    ;
    assert((2 * smaller + 100) / 200 <= (2 * larger + 100) / 200);
}

impl WindowOffsets {
    /// Whether the offsets lie in order within the beat.
    pub open spec fn in_order(self) -> bool {
        self.start_percent <= self.end_percent <= 100
    }
}

/// The part of each whole beat of a recording that is listened to, as the
/// positions of its first sample and of the sample behind its last. A rest of
/// the recording that is shorter than a beat gets no window. There are no
/// windows for offsets that do not lie in order within the beat.
pub fn beat_windows(samples: usize, samples_per_beat: usize, offsets: &WindowOffsets) -> (r: Option<
    Vec<(usize, usize)>,
>)
    ensures
        r is Some <==> offsets.in_order(),
        r is Some ==> {
            &&& r->0@.len() == whole_beats(samples as int, samples_per_beat as int)
            &&& forall|beat: int|
                0 <= beat < r->0@.len() ==> {
                    &&& (#[trigger] r->0@[beat]).0 == window_of(
                        beat,
                        samples_per_beat as int,
                        *offsets,
                    ).0
                    &&& r->0@[beat].1 == window_of(beat, samples_per_beat as int, *offsets).1
                    &&& beat * samples_per_beat <= r->0@[beat].0 <= r->0@[beat].1 <= (beat + 1)
                        * samples_per_beat <= samples
                }
        },
{
    if offsets.start_percent > offsets.end_percent || offsets.end_percent > 100 {
        return None;
    }
    let mut windows: Vec<(usize, usize)> = Vec::new();
    if samples_per_beat == 0 {
        return Some(windows);
    }
    let count = samples / samples_per_beat;
    let from = part_of(samples_per_beat, offsets.start_percent);
    let to = part_of(samples_per_beat, offsets.end_percent);
    proof {
        part_grows(
            samples_per_beat as int,
            offsets.start_percent as int,
            offsets.end_percent as int,
        );
        assert(count * samples_per_beat <= samples) by (nonlinear_arith)
            requires
                count == samples / samples_per_beat,
                samples_per_beat > 0,
        ;
    }
    let mut beat: usize = 0;
    while beat < count
        invariant
            0 <= beat <= count,
            samples_per_beat > 0,
            count * samples_per_beat <= samples,
            from == rounded(samples_per_beat * offsets.start_percent, 100),
            to == rounded(samples_per_beat * offsets.end_percent, 100),
            from <= to <= samples_per_beat,
            windows@.len() == beat,
            forall|k: int|
                0 <= k < beat ==> {
                    &&& (#[trigger] windows@[k]).0 == window_of(k, samples_per_beat as int, *offsets).0
                    &&& windows@[k].1 == window_of(k, samples_per_beat as int, *offsets).1
                    &&& k * samples_per_beat <= windows@[k].0 <= windows@[k].1 <= (k + 1)
                        * samples_per_beat <= samples
                },
        decreases count - beat,
    {
        proof {
            assert((beat + 1) * samples_per_beat <= count * samples_per_beat) by (nonlinear_arith)
                requires
                    beat + 1 <= count,
                    samples_per_beat > 0,
            ;
            assert((beat + 1) * samples_per_beat == beat * samples_per_beat + samples_per_beat)
                by (nonlinear_arith);
        }
        let base = beat * samples_per_beat;
        windows.push((base + from, base + to));
        beat += 1;
    }
    Some(windows)
}

impl PlayedNote {
    /// What a beat counts as. Silence goes before everything else.
    pub fn classify(pitch: Option<Note>, quiet: bool) -> (r: PlayedNote)
        ensures
            r == heard(pitch, quiet),
    {
        if quiet {
            return PlayedNote::Silence;
        }
        match pitch {
            Some(note) => PlayedNote::Surely(note),
            None => PlayedNote::Unknown,
        }
    }
}

impl Transcription {
    /// The transcription of a recording from what was measured on its beats.
    pub fn from_readings(readings: &Vec<BeatReading>) -> (r: Transcription)
        ensures
            r.notes@.len() == readings@.len(),
            forall|beat: int|
                0 <= beat < readings@.len() ==> #[trigger] r.notes@[beat] == heard(
                    readings@[beat].pitch,
                    readings@[beat].quiet,
                ),
    {
        let mut notes: Vec<PlayedNote> = Vec::new();
        let mut beat: usize = 0;
        while beat < readings.len()
            invariant
                0 <= beat <= readings.len(),
                notes@.len() == beat,
                forall|k: int|
                    0 <= k < beat ==> #[trigger] notes@[k] == heard(
                        readings@[k].pitch,
                        readings@[k].quiet,
                    ),
            decreases readings.len() - beat,
        {
            notes.push(PlayedNote::classify(readings[beat].pitch, readings[beat].quiet));
            beat += 1;
        }
        Transcription { notes }
    }
}

/// The bin of the lower half of a spectrum that holds the most power, and of
/// several such bins the highest. A spectrum of less than two bins has none.
pub fn dominant_bin(powers: &Vec<u32>) -> (r: Option<usize>)
    ensures
        r is Some <==> powers@.len() / 2 > 0,
        r is Some ==> {
            &&& r->0 < powers@.len() / 2
            &&& forall|bin: int| 0 <= bin < powers@.len() / 2 ==> #[trigger] powers@[bin] <= powers@[r->0 as int]
            &&& forall|bin: int| r->0 < bin < powers@.len() / 2 ==> #[trigger] powers@[bin] < powers@[r->0 as int]
        },
{
    let half = powers.len() / 2;
    if half == 0 {
        return None;
    }
    let mut best: usize = 0;
    let mut bin: usize = 1;
    while bin < half
        invariant
            1 <= bin <= half,
            half == powers@.len() / 2,
            best < bin,
            forall|k: int| 0 <= k < bin ==> #[trigger] powers@[k] <= powers@[best as int],
            forall|k: int| best < k < bin ==> #[trigger] powers@[k] < powers@[best as int],
        decreases half - bin,
    {
        if powers[bin] >= powers[best] {
            best = bin;
        }
        bin += 1;
    }
    Some(best)
}

/// The bin that is taken for the root: the lowest bin of the lower half of a
/// spectrum whose power lies above a threshold. Bin 0 holds no pitch and is
/// passed over.
pub fn root_bin(powers: &Vec<u32>, threshold: u32) -> (r: Option<usize>)
    ensures
        match r {
            Some(root) => {
                &&& 0 < root < powers@.len() / 2
                &&& powers@[root as int] > threshold
                &&& forall|bin: int| 0 < bin < root ==> #[trigger] powers@[bin] <= threshold
            },
            None => forall|bin: int|
                0 < bin < powers@.len() / 2 ==> #[trigger] powers@[bin] <= threshold,
        },
{
    let half = powers.len() / 2;
    let mut bin: usize = 1;
    while bin < half
        invariant
            1 <= bin,
            half == powers@.len() / 2,
            forall|k: int| 0 < k < bin ==> #[trigger] powers@[k] <= threshold,
        decreases half - bin,
    {
        if powers[bin] > threshold {
            return Some(bin);
        }
        bin += 1;
    }
    None
}

/// The neighbour of a bin that the root frequency is drawn towards: the bin
/// below where it holds more power than the bin above, else the bin above. A
/// bin at either end of the spectrum has no such neighbour.
pub fn stronger_neighbour(powers: &Vec<u32>, center: usize) -> (r: Option<usize>)
    ensures
        r is Some <==> 0 < center && center + 1 < powers@.len(),
        r is Some ==> r->0 == if powers@[center - 1] > powers@[center + 1] {
            center - 1
        } else {
            center + 1
        },
{
    if center == 0 || center >= powers.len() || center + 1 >= powers.len() {
        return None;
    }
    if powers[center - 1] > powers[center + 1] {
        Some(center - 1)
    } else {
        Some(center + 1)
    }
}

/// A beat that stays below the silence threshold counts as silence, whatever
/// pitch was found in it.
pub proof fn silence_goes_first(pitch: Option<Note>)
    ensures
        heard(pitch, true) == PlayedNote::Silence,
{
}

/// A recording holds as many beats as fit into it whole: the rest behind the
/// last of them is shorter than a beat.
pub proof fn rest_is_dropped(samples: int, samples_per_beat: int)
    requires
        0 <= samples,
        0 < samples_per_beat,
    ensures
        whole_beats(samples, samples_per_beat) * samples_per_beat <= samples,
        samples - whole_beats(samples, samples_per_beat) * samples_per_beat < samples_per_beat,
{
    vstd::arithmetic::div_mod::lemma_fundamental_div_mod(samples, samples_per_beat);
    vstd::arithmetic::div_mod::lemma_mod_bound(samples, samples_per_beat);
    assert(samples_per_beat * (samples / samples_per_beat) == (samples / samples_per_beat)
        * samples_per_beat) by (nonlinear_arith);
}

} // verus!

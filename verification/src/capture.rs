//! The decisions of the capture loop: when a recording pass starts, when it is
//! thrown away, and when enough has been recorded to analyze it.
//!
//! The loop itself lives with the audio host. Once per callback it tells the
//! state here what the transport says and how many samples came in, and does
//! what the answer asks for. Tempo and position are whole numbers of
//! thousandths, so that they can be compared exactly.

use vstd::prelude::*;

verus! {

/// What the host says of its transport at one callback.
#[derive(Debug, Clone, Copy, PartialEq, Eq, Structural)]
pub struct Transport {
    pub playing: bool,
    /// The bar the transport is in, counted from 0.
    pub bar_number: Option<i32>,
    /// The position in thousandths of a beat.
    pub pos_beats: Option<i64>,
    /// The tempo in thousandths of a beat per minute.
    pub tempo: Option<u32>,
    /// Samples per second.
    pub sample_rate: u32,
}

#[derive(Debug, Clone, Copy, PartialEq, Eq, Structural)]
pub enum DataAcquizitionState {
    WaitingForStart,
    Acquiring,
}

/// What the loop is to do after a callback.
#[derive(Debug, Clone, Copy, PartialEq, Eq, Structural)]
pub enum Action {
    /// Leave everything as it is.
    Nothing,
    /// Keep the samples of this callback. Where a pass began with it, what the
    /// last pass published goes first.
    Append { began: bool },
    /// Keep the samples of this callback, analyze all that were kept at this
    /// tempo and publish the result; the buffer is then empty.
    Analyze { began: bool, tempo: u32 },
    /// Throw away the samples that were kept and what was published.
    Discard,
}

/// What is known of the recording pass under way.
#[derive(Debug, Clone, Copy, PartialEq, Eq, Structural)]
pub struct DataToAnalyze {
    pub acquizition_state: DataAcquizitionState,
    /// The tempo of the pass, once it was seen.
    pub tempo: Option<u32>,
    /// The position at which samples were last kept.
    pub last_saved_beat_pos: Option<i64>,
    /// How many samples were kept.
    pub samples: usize,
    /// The beats of the form that was selected when the pass began.
    pub form_length: u32,
}

/// The least number of samples that holds `form_beats` beats at a tempo:
/// `form_beats * sample_rate / (tempo / 60)` rounded up, with the tempo in
/// thousandths.
pub open spec fn samples_needed(form_beats: u32, sample_rate: u32, tempo: u32) -> int
    recommends
        tempo > 0,
{
    (form_beats * sample_rate * 60000 + tempo - 1) / (tempo as int)
}

/// Whether a transport stands where a pass may begin: in bar 0, at or before
/// the first beat. A position that the host does not tell counts as before it.
pub open spec fn at_start(transport: Transport) -> bool {
    transport.bar_number == Some(0i32) && match transport.pos_beats {
        Some(position) => position <= 0,
        None => true,
    }
}

/// The tempo that a pass goes on with, where it can: the one it has, which the
/// transport must not contradict, or else the one the transport tells.
pub open spec fn tempo_kept(known: Option<u32>, told: Option<u32>) -> Option<u32> {
    match (known, told) {
        (None, None) => None,
        (None, Some(tempo)) => Some(tempo),
        (Some(tempo), None) => Some(tempo),
        (Some(tempo), Some(now)) => if tempo == now {
            Some(tempo)
        } else {
            None
        },
    }
}

/// Whether the transport has gone back behind the position last kept. A
/// position that the host does not tell lies behind every other.
pub open spec fn went_backwards(last: Option<i64>, now: Option<i64>) -> bool {
    match last {
        Some(last) => match now {
            Some(now) => last > now,
            None => last > i64::MIN,
        },
        None => false,
    }
}

impl DataToAnalyze {
    /// The state in which no pass is under way.
    pub open spec fn cleared(self) -> DataToAnalyze {
        DataToAnalyze {
            acquizition_state: DataAcquizitionState::WaitingForStart,
            tempo: None,
            last_saved_beat_pos: None,
            samples: 0,
            form_length: self.form_length,
        }
    }

    /// The state and the action that follow a callback.
    pub open spec fn after(self, transport: Transport, new_samples: usize, selected_length: u32) -> (
        DataToAnalyze,
        Action,
    ) {
        let began = self.acquizition_state is WaitingForStart;
        let form_length = if began {
            selected_length
        } else {
            self.form_length
        };
        if !transport.playing || (began && !at_start(transport)) {
            (self, Action::Nothing)
        } else {
            match tempo_kept(self.tempo, transport.tempo) {
                None => (
                    (DataToAnalyze { form_length, ..self }).cleared(),
                    Action::Discard,
                ),
                Some(tempo) => if went_backwards(self.last_saved_beat_pos, transport.pos_beats) {
                    ((DataToAnalyze { form_length, ..self }).cleared(), Action::Discard)
                } else if tempo > 0 && self.samples + new_samples >= samples_needed(
                    form_length,
                    transport.sample_rate,
                    tempo,
                ) {
                    (
                        (DataToAnalyze { form_length, ..self }).cleared(),
                        Action::Analyze { began, tempo },
                    )
                } else {
                    (
                        DataToAnalyze {
                            acquizition_state: DataAcquizitionState::Acquiring,
                            tempo: Some(tempo),
                            last_saved_beat_pos: if new_samples > 0 {
                                transport.pos_beats
                            } else {
                                self.last_saved_beat_pos
                            },
                            samples: (self.samples + new_samples) as usize,
                            form_length,
                        },
                        Action::Append { began },
                    )
                },
            }
        }
    }

    /// The state before the first callback.
    pub fn new() -> (r: DataToAnalyze)
        ensures
            r == r.cleared(),
            r.form_length == 0,
    {
        DataToAnalyze {
            acquizition_state: DataAcquizitionState::WaitingForStart,
            tempo: None,
            last_saved_beat_pos: None,
            samples: 0,
            form_length: 0,
        }
    }

    /// Forgets the pass under way.
    pub fn clear(&mut self)
        ensures
            *final(self) == old(self).cleared(),
    {
        self.acquizition_state = DataAcquizitionState::WaitingForStart;
        self.tempo = None;
        self.last_saved_beat_pos = None;
        self.samples = 0;
    }

    /// Takes in one callback: what the transport says, how many samples came
    /// with it, and how many beats the selected form has. A pass begins only
    /// while the transport plays at the start of bar 0. It is thrown away when
    /// no tempo is known, when the tempo changes, and when the position goes
    /// backwards. It ends as soon as the samples kept hold the whole form.
    pub fn process(&mut self, transport: &Transport, new_samples: usize, selected_length: u32) -> (r:
        Action)
        requires
            old(self).samples + new_samples <= usize::MAX,
        ensures
            (*final(self), r) == old(self).after(*transport, new_samples, selected_length),
    {
        if !transport.playing {
            return Action::Nothing;
        }
        let began = match self.acquizition_state {
            DataAcquizitionState::WaitingForStart => true,
            DataAcquizitionState::Acquiring => false,
        };
        if began {
            let at_start = match transport.bar_number {
                Some(0) => match transport.pos_beats {
                    Some(position) => position <= 0,
                    None => true,
                },
                _ => false,
            };
            if !at_start {
                return Action::Nothing;
            }
            self.acquizition_state = DataAcquizitionState::Acquiring;
            self.form_length = selected_length;
        }
        let kept = match (self.tempo, transport.tempo) {
            (None, None) => None,
            (None, Some(tempo)) => Some(tempo),
            (Some(tempo), None) => Some(tempo),
            (Some(tempo), Some(now)) => if tempo == now {
                Some(tempo)
            } else {
                None
            },
        };
        let tempo = match kept {
            Some(tempo) => tempo,
            None => {
                self.clear();
                return Action::Discard;
            },
        };
        self.tempo = Some(tempo);
        if let Some(last) = self.last_saved_beat_pos {
            let now = match transport.pos_beats {
                Some(position) => position,
                None => i64::MIN,
            };
            if last > now {
                self.clear();
                return Action::Discard;
            }
        }
        self.samples = self.samples + new_samples;
        if new_samples > 0 {
            self.last_saved_beat_pos = transport.pos_beats;
        }
        if enough_samples(self.samples, self.form_length, transport.sample_rate, tempo) {
            self.clear();
            return Action::Analyze { began, tempo };
        }
        Action::Append { began }
    }
}

/// Whether `samples` samples hold `form_beats` beats at a tempo. At a tempo of
/// 0 no number of samples does.
pub fn enough_samples(samples: usize, form_beats: u32, sample_rate: u32, tempo: u32) -> (r: bool)
    ensures
        r == (tempo > 0 && samples >= samples_needed(form_beats, sample_rate, tempo)),
{
    if tempo == 0 {
        return false;
    }
    let beats: u128 = form_beats as u128;
    let rate: u128 = sample_rate as u128;
    assert(beats * rate <= 0xffff_ffff * 0xffff_ffff) by (nonlinear_arith)
        requires
            beats <= 0xffff_ffff,
            rate <= 0xffff_ffff,
    ;
    let per_minute: u128 = beats * rate;
    assert(per_minute * 60000 <= 0xffff_ffff * 0xffff_ffff * 60000) by (nonlinear_arith)
        requires
            per_minute <= 0xffff_ffff * 0xffff_ffff,
    ;
    assert(form_beats * sample_rate * 60000 == per_minute * 60000) by (nonlinear_arith)
        requires
            per_minute == form_beats * sample_rate,
    ;
    let scaled: u128 = per_minute * 60000;
    let needed: u128 = (scaled + (tempo as u128 - 1)) / (tempo as u128);
    samples as u128 >= needed
}

/// The number of samples that `process` waits for is the least that lasts as
/// long as the form: that many samples hold every beat, and one less does not.
pub proof fn needed_is_least(form_beats: u32, sample_rate: u32, tempo: u32)
    requires
        tempo > 0,
    ensures
        samples_needed(form_beats, sample_rate, tempo) * tempo >= form_beats * sample_rate * 60000,
        (samples_needed(form_beats, sample_rate, tempo) - 1) * tempo < form_beats * sample_rate
            * 60000,
{
    let total = form_beats * sample_rate * 60000;
    let needed = samples_needed(form_beats, sample_rate, tempo);
    let bumped = total + tempo - 1;
    assert(needed == bumped / (tempo as int));
    assert(bumped == (tempo as int) * (bumped / (tempo as int)) + bumped % (tempo as int)) by {
        vstd::arithmetic::div_mod::lemma_fundamental_div_mod(bumped, tempo as int);
    }
    assert(0 <= bumped % (tempo as int) < tempo) by {
        vstd::arithmetic::div_mod::lemma_mod_bound(bumped, tempo as int);
    }
    assert(needed * tempo == (tempo as int) * needed) by (nonlinear_arith);
    assert((needed - 1) * tempo == needed * tempo - tempo) by (nonlinear_arith);
}

/// Whether a pass is being recorded, as the display shows it: a position is
/// known, and no analysis has been published for the pass.
pub fn is_recording(beat_pos_known: bool, analysis_published: bool) -> (r: bool)
    ensures
        r == (beat_pos_known && !analysis_published),
{
    if beat_pos_known {
        !analysis_published
    } else {
        false
    }
}

/// What is counted on a beat of the count-off: one and two over two beats each,
/// then one, two, three and four; nothing after the eighth beat.
pub open spec fn count_on(beat: usize) -> Seq<char> {
    if beat < 2 || beat == 4 {
        seq!['1']
    } else if beat < 4 || beat == 5 {
        seq!['2']
    } else if beat == 6 {
        seq!['3']
    } else if beat == 7 {
        seq!['4']
    } else {
        Seq::empty()
    }
}

/// The count shown on a beat of the count-off.
pub fn countoff(beat: usize) -> (r: &'static str)
    ensures
        r@ == count_on(beat),
{
    proof {
        reveal_strlit("1");
        reveal_strlit("2");
        reveal_strlit("3");
        reveal_strlit("4");
        reveal_strlit("");
    }
    let count = match beat {
        0 => "1",
        1 => "1",
        2 => "2",
        3 => "2",
        4 => "1",
        5 => "2",
        6 => "3",
        7 => "4",
        _ => "",
    };
    assert(count@ =~= count_on(beat));
    count
}

/// A pass that is under way is thrown away, and the state is the initial one
/// again, whenever the tempo changes or the position goes backwards.
pub proof fn invalid_pass_is_discarded(
    state: DataToAnalyze,
    transport: Transport,
    new_samples: usize,
    selected_length: u32,
)
    requires
        state.acquizition_state is Acquiring,
        transport.playing,
        (state.tempo is Some && transport.tempo is Some && state.tempo != transport.tempo) || (
        state.tempo is None && transport.tempo is None) || went_backwards(
            state.last_saved_beat_pos,
            transport.pos_beats,
        ),
    ensures
        state.after(transport, new_samples, selected_length).1 == Action::Discard,
        state.after(transport, new_samples, selected_length).0 == state.cleared(),
        state.after(transport, new_samples, selected_length).0.acquizition_state
            is WaitingForStart,
{
}

/// Nothing starts a pass but a playing transport at the start of bar 0.
pub proof fn pass_begins_at_start_only(
    state: DataToAnalyze,
    transport: Transport,
    new_samples: usize,
    selected_length: u32,
)
    requires
        state.acquizition_state is WaitingForStart,
        !transport.playing || !at_start(transport),
    ensures
        state.after(transport, new_samples, selected_length) == (state, Action::Nothing),
{
}

} // verus!

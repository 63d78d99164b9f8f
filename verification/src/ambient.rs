//! Ambient voices: the A/B loop state machine and the DSP chain
//! description each enqueue carries.
//!
//! An ambient voice alternates two files. It plays A, then B; after each
//! completed A/B cycle a countdown of cycles runs out and a pause of a
//! random number of units may follow, each unit standing for roughly five
//! seconds of silence; then a fresh countdown is drawn and the loop starts
//! again at A. All state moves happen when the voice's sink is observed to
//! have drained, once per engine tick.
use vstd::prelude::*;
use crate::rng::draw_u32_inclusive;
use crate::settings::AmbientSettings;
use crate::sink::SinkModel;

verus! {

/// Engine ticks of silence per drawn pause unit: about five seconds.
pub const PAUSE_TICKS_PER_UNIT: u64 = 100;

/// The parameters a decoded source is wrapped with, in chain order: rate
/// change, stereo balance, low-pass cutoff, then reverb mix.
#[derive(Clone, Copy, Debug, PartialEq, Eq, Structural)]
pub struct ChainParams {
    /// Playback rate in thousandths; pitch follows the rate.
    pub pitch: u32,
    /// Stereo balance in thousandths, negative left.
    pub pan: i32,
    /// Low-pass cutoff in hertz.
    pub low_pass_freq: u32,
    /// Reverb wet mix in thousandths.
    pub reverb_mix: u32,
}

/// The chain a given settings record asks for.
pub open spec fn chain_of(s: AmbientSettings) -> ChainParams {
    ChainParams {
        pitch: s.pitch,
        pan: s.pan,
        low_pass_freq: s.low_pass_freq,
        reverb_mix: s.algorithmic_reverb,
    }
}

impl ChainParams {
    /// The chain matching the given settings.
    pub fn from_settings(s: &AmbientSettings) -> (r: ChainParams)
        ensures
            r == chain_of(*s),
    {
        ChainParams {
            pitch: s.pitch,
            pan: s.pan,
            low_pass_freq: s.low_pass_freq,
            reverb_mix: s.algorithmic_reverb,
        }
    }

    /// Whether the reverb stage of this chain passes samples through
    /// untouched: it does exactly when the wet mix is below one
    /// thousandth.
    pub fn reverb_is_passthrough(&self) -> (r: bool)
        ensures
            r == (self.reverb_mix < 1),
    {
        self.reverb_mix < 1
    }
}

/// Gain of the panning stage for one channel of a stereo frame, in
/// thousandths. The left channel (index zero) is untouched for a centered
/// or left-leaning balance and attenuates linearly to silence at full
/// right; the right channel mirrors this.
pub open spec fn pan_gain(pan: i32, channel: u16) -> int {
    if channel == 0 {
        if pan <= 0 {
            1000
        } else {
            1000 - pan
        }
    } else {
        if pan >= 0 {
            1000
        } else {
            1000 + pan
        }
    }
}

/// Full left silences the right channel and leaves the left whole; full
/// right mirrors it; a centered balance touches neither channel.
pub proof fn lemma_pan_extremes(channel: u16)
    ensures
        pan_gain(-1000i32, 0) == 1000,
        pan_gain(-1000i32, 1) == 0,
        pan_gain(1000, 0) == 0,
        pan_gain(1000, 1) == 1000,
        pan_gain(0, channel) == 1000,
{
}

/// The panning stage: applies the per-channel gain to stereo streams and
/// leaves any other channel layout untouched.
#[derive(Clone, Copy, Debug)]
pub struct PannedSource {
    /// Balance in thousandths, clamped to one unit either side.
    pan: i32,
    /// Channel count of the wrapped stream.
    channels: u16,
    /// Channel of the next sample within the current frame.
    current_channel: u16,
}

impl PannedSource {
    /// The balance after clamping.
    pub closed spec fn pan_spec(self) -> i32 {
        self.pan
    }

    /// The channel count of the wrapped stream.
    pub closed spec fn channels_spec(self) -> u16 {
        self.channels
    }

    /// The channel index the next sample belongs to.
    pub closed spec fn current_channel_spec(self) -> u16 {
        self.current_channel
    }

    /// A panning stage over a stream with the given channel count.
    pub fn new(channels: u16, pan: i32) -> (r: PannedSource)
        requires
            channels >= 1,
        ensures
            r.pan_spec() == crate::settings::clamp_i32(pan, -1000i32, 1000),
            r.channels_spec() == channels,
            r.current_channel_spec() == 0,
    {
        PannedSource {
            pan: crate::settings::clamp_exec_i32(pan, -1000, 1000),
            channels,
            current_channel: 0,
        }
    }

    /// The gain, in thousandths, that the next sample receives; advances
    /// to the next channel on stereo streams, which alone are affected.
    pub fn next_gain(&mut self) -> (g: u32)
        requires
            old(self).channels_spec() >= 1,
            old(self).current_channel_spec() < old(self).channels_spec(),
            -1000 <= old(self).pan_spec() <= 1000,
        ensures
            old(self).channels_spec() == 2 ==> g == pan_gain(
                old(self).pan_spec(),
                old(self).current_channel_spec(),
            ),
            old(self).channels_spec() != 2 ==> g == 1000,
            final(self).pan_spec() == old(self).pan_spec(),
            final(self).channels_spec() == old(self).channels_spec(),
            final(self).current_channel_spec() < final(self).channels_spec(),
            old(self).channels_spec() == 2 ==> final(self).current_channel_spec() == (
            old(self).current_channel_spec() + 1) % 2,
    {
        if self.channels == 2 {
            let channel = self.current_channel;
            self.current_channel = (self.current_channel + 1) % self.channels;
            if channel == 0 {
                if self.pan <= 0 {
                    1000
                } else {
                    (1000 - self.pan) as u32
                }
            } else {
                if self.pan >= 0 {
                    1000
                } else {
                    (1000 + self.pan) as u32
                }
            }
        } else {
            1000
        }
    }
}

/// Everything the engine keeps per playing ambient voice.
#[derive(Debug)]
pub struct AmbientState {
    /// The voice's sink model.
    pub sink: SinkModel,
    /// Path of file A.
    pub file_a: String,
    /// Path of file B.
    pub file_b: String,
    /// The voice's settings.
    pub settings: AmbientSettings,
    /// Whether the A file is the one playing or due.
    pub is_playing_a: bool,
    /// A/B cycles left before a pause is considered.
    pub loops_remaining: u32,
    /// Engine ticks of pause left.
    pub pause_remaining_ticks: u64,
    /// Whether the voice is inside a pause.
    pub is_paused: bool,
}

/// How one observation of a drained sink moves the A/B machine: the
/// relation between the state before, the state after, and which file was
/// asked to be enqueued (`Some(true)` for A, `Some(false)` for B).
///
/// Where a value is drawn at random, the relation admits exactly the
/// values of the drawing window, so every run of the machine keeps each
/// drawn countdown within `[repeat_min, repeat_max]` and each drawn pause
/// within `[pause_min, pause_max]` units.
pub open spec fn ab_step_rel(
    pre: AmbientState,
    post: AmbientState,
    enq: Option<bool>,
) -> bool {
    if !pre.sink.empty {
        post == pre && enq is None
    } else if pre.is_paused {
        if pre.pause_remaining_ticks > 1 {
            post == (AmbientState {
                pause_remaining_ticks: (pre.pause_remaining_ticks - 1) as u64,
                ..pre
            }) && enq is None
        } else {
            &&& enq == Some(true)
            &&& post.is_playing_a
            &&& !post.is_paused
            &&& post.pause_remaining_ticks == 0
            &&& pre.settings.repeat_min <= post.loops_remaining <= pre.settings.repeat_max
            &&& post == (AmbientState {
                is_playing_a: true,
                is_paused: false,
                pause_remaining_ticks: 0,
                loops_remaining: post.loops_remaining,
                ..pre
            })
        }
    } else if pre.is_playing_a {
        post == (AmbientState { is_playing_a: false, ..pre }) && enq == Some(false)
    } else if pre.loops_remaining > 1 {
        post == (AmbientState {
            is_playing_a: true,
            loops_remaining: (pre.loops_remaining - 1) as u32,
            ..pre
        }) && enq == Some(true)
    } else {
        ||| {
            &&& pre.settings.pause_max > 0
            &&& enq is None
            &&& PAUSE_TICKS_PER_UNIT <= post.pause_remaining_ticks
            &&& PAUSE_TICKS_PER_UNIT * pre.settings.pause_min <= post.pause_remaining_ticks
                <= PAUSE_TICKS_PER_UNIT * pre.settings.pause_max
            &&& post == (AmbientState {
                is_paused: true,
                loops_remaining: 0,
                pause_remaining_ticks: post.pause_remaining_ticks,
                ..pre
            })
        }
        ||| {
            &&& pre.settings.pause_min == 0
            &&& enq == Some(true)
            &&& pre.settings.repeat_min <= post.loops_remaining <= pre.settings.repeat_max
            &&& post == (AmbientState {
                is_playing_a: true,
                loops_remaining: post.loops_remaining,
                ..pre
            })
        }
    }
}

/// The voice as the A/B machine sees it: its sink replaced by a
/// canonical one carrying only the drain flag. The machine reads the
/// drain flag alone and never moves the gain, so its step relation is
/// stated over this view wherever the gain is owned by someone else.
pub open spec fn machine_view(st: AmbientState) -> AmbientState {
    AmbientState {
        sink: SinkModel { volume: 0u32, paused: false, empty: st.sink.empty },
        ..st
    }
}

/// The step relation is insensitive to the sink's gain and pause flag:
/// it reads only the drain flag and leaves the sink alone.
pub proof fn lemma_ab_step_machine_view(
    pre: AmbientState,
    post: AmbientState,
    enq: Option<bool>,
)
    requires
        ab_step_rel(pre, post, enq),
    ensures
        ab_step_rel(machine_view(pre), machine_view(post), enq),
{
    if !pre.sink.empty {
        assert(machine_view(post) == machine_view(pre));
    } else if pre.is_paused {
        if pre.pause_remaining_ticks > 1 {
            assert(machine_view(post) == (AmbientState {
                pause_remaining_ticks: (pre.pause_remaining_ticks - 1) as u64,
                ..machine_view(pre)
            }));
        } else {
            assert(machine_view(post) == (AmbientState {
                is_playing_a: true,
                is_paused: false,
                pause_remaining_ticks: 0,
                loops_remaining: post.loops_remaining,
                ..machine_view(pre)
            }));
        }
    } else if pre.is_playing_a {
        assert(machine_view(post) == (AmbientState {
            is_playing_a: false,
            ..machine_view(pre)
        }));
    } else if pre.loops_remaining > 1 {
        assert(machine_view(post) == (AmbientState {
            is_playing_a: true,
            loops_remaining: (pre.loops_remaining - 1) as u32,
            ..machine_view(pre)
        }));
    } else {
        if post.is_paused {
            assert(machine_view(post) == (AmbientState {
                is_paused: true,
                loops_remaining: 0,
                pause_remaining_ticks: post.pause_remaining_ticks,
                ..machine_view(pre)
            }));
        } else {
            assert(machine_view(post) == (AmbientState {
                is_playing_a: true,
                loops_remaining: post.loops_remaining,
                ..machine_view(pre)
            }));
        }
    }
}

/// Run one observation of the A/B machine on this voice. Returns which
/// file must be queued next, if any: `Some(true)` for file A,
/// `Some(false)` for file B. The caller owns the sink volume and the
/// actual enqueueing.
pub fn ambient_ab_step(state: &mut AmbientState) -> (enq: Option<bool>)
    requires
        old(state).settings.valid(),
    ensures
        ab_step_rel(*old(state), *final(state), enq),
{
    if !state.sink.empty() {
        return None;
    }
    if state.is_paused {
        if state.pause_remaining_ticks > 1 {
            state.pause_remaining_ticks = state.pause_remaining_ticks - 1;
            None
        } else {
            state.is_paused = false;
            state.pause_remaining_ticks = 0;
            state.loops_remaining = draw_u32_inclusive(
                state.settings.repeat_min,
                state.settings.repeat_max,
            );
            state.is_playing_a = true;
            Some(true)
        }
    } else if state.is_playing_a {
        state.is_playing_a = false;
        Some(false)
    } else if state.loops_remaining > 1 {
        state.loops_remaining = state.loops_remaining - 1;
        state.is_playing_a = true;
        Some(true)
    } else {
        state.loops_remaining = 0;
        let pause_units = draw_u32_inclusive(
            state.settings.pause_min,
            state.settings.pause_max,
        );
        if pause_units > 0 {
            state.is_paused = true;
            proof {
                assert(PAUSE_TICKS_PER_UNIT * state.settings.pause_min <= PAUSE_TICKS_PER_UNIT
                    * pause_units <= PAUSE_TICKS_PER_UNIT * state.settings.pause_max)
                    by (nonlinear_arith)
                    requires
                        state.settings.pause_min <= pause_units <= state.settings.pause_max,
                ;
            }
            state.pause_remaining_ticks = (pause_units as u64) * PAUSE_TICKS_PER_UNIT;
            None
        } else {
            state.loops_remaining = draw_u32_inclusive(
                state.settings.repeat_min,
                state.settings.repeat_max,
            );
            state.is_playing_a = true;
            Some(true)
        }
    }
}

/// With a one-cycle window and no pause window, the machine is a plain
/// infinite alternation: a drained A side always hands over to B, and a
/// drained B side always hands straight back to A with one cycle left
/// again — no pause can be entered and no other countdown can be drawn.
pub proof fn lemma_ab_simple_alternation(
    pre: AmbientState,
    mid: AmbientState,
    post: AmbientState,
    e1: Option<bool>,
    e2: Option<bool>,
)
    requires
        pre.settings.repeat_min == 1,
        pre.settings.repeat_max == 1,
        pre.settings.pause_min == 0,
        pre.settings.pause_max == 0,
        pre.sink.empty,
        mid.sink.empty,
        pre.is_playing_a,
        !pre.is_paused,
        pre.loops_remaining == 1,
        ab_step_rel(pre, mid, e1),
        ab_step_rel(mid, post, e2),
    ensures
        e1 == Some(false),
        !mid.is_playing_a,
        !mid.is_paused,
        mid.loops_remaining == 1,
        e2 == Some(true),
        post.is_playing_a,
        !post.is_paused,
        post.loops_remaining == 1,
        post.settings == pre.settings,
{
}

/// Every countdown and pause the machine draws lies inside the voice's
/// configured windows, and stays bounded by them from one observation to
/// the next.
pub proof fn lemma_ab_windows(pre: AmbientState, post: AmbientState, enq: Option<bool>)
    requires
        pre.settings.valid(),
        ab_step_rel(pre, post, enq),
        pre.loops_remaining <= pre.settings.repeat_max || pre.settings.repeat_max == 0,
        pre.pause_remaining_ticks <= PAUSE_TICKS_PER_UNIT * pre.settings.pause_max,
    ensures
        post.settings == pre.settings,
        post.loops_remaining <= post.settings.repeat_max || post.settings.repeat_max == 0,
        post.pause_remaining_ticks <= PAUSE_TICKS_PER_UNIT * post.settings.pause_max,
        post.is_paused && !pre.is_paused ==> PAUSE_TICKS_PER_UNIT * pre.settings.pause_min
            <= post.pause_remaining_ticks,
        enq == Some(true) && (pre.is_paused || pre.loops_remaining <= 1)
            ==> pre.settings.repeat_min <= post.loops_remaining <= pre.settings.repeat_max,
{
}

} // verus!

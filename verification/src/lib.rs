//! The audio engine core of a desktop soundscape player: one music
//! stream, one soundboard one-shot, and any number of ambient A/B loops,
//! mixed against shared master controls on a fifty-millisecond tick.
//!
//! The engine is a state machine over plain values. Gains, pitches and
//! mixes are fixed point — thousandths of full scale — and times are
//! milliseconds or ticks, so every control rule here is stated and proved
//! exactly: the gain formula with its mute gates and ducking, the A/B
//! scheduler's randomized windows, the fade and transition tables, the
//! crossfade arithmetic, and the snapshot records the UI polls. The
//! caller owns everything the engine may not touch: decoding, the output
//! device, the disk, and the per-sample floating-point chain the engine
//! describes through its chain parameters and enqueue requests.
pub mod ambient;
pub mod engine;
pub mod fades;
pub mod gain;
pub mod music;
pub mod persist;
pub mod ring;
pub mod rng;
pub mod settings;
pub mod sink;
pub mod strmap;
pub mod types;

use vstd::prelude::*;

verus! {

/// Name of the visualization style selected when settings carry none.
pub fn default_visualization() -> (r: String)
    ensures
        r@ == "orb"@,
{
    String::from_str("orb")
}

} // verus!

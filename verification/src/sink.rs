//! The engine's model of one output sink: a gain, a paused flag, and
//! whether its queue of sources has drained.
//!
//! The real queue of decoded sources lives with the output device; the
//! engine only ever observes whether it has drained, and that observation
//! is fed back into this model at the start of each tick.
use vstd::prelude::*;

verus! {

/// One per-voice sink: current gain in thousandths, play/pause state, and
/// the last observed emptiness of its source queue.
#[derive(Clone, Copy, Debug, PartialEq, Eq, Structural)]
pub struct SinkModel {
    /// Gain applied to everything this sink plays, in thousandths.
    pub volume: u32,
    /// Whether playback is paused.
    pub paused: bool,
    /// Whether the queue has drained and the current source is exhausted.
    pub empty: bool,
}

impl SinkModel {
    /// A fresh sink: the given gain, playing, nothing queued yet.
    pub fn new(volume: u32) -> (r: SinkModel)
        ensures
            r.volume == volume,
            !r.paused,
            r.empty,
    {
        SinkModel { volume, paused: false, empty: true }
    }

    /// Change the gain; playback state is untouched.
    pub fn set_volume(&mut self, volume: u32)
        ensures
            *final(self) == (SinkModel { volume, ..*old(self) }),
    {
        self.volume = volume;
    }

    /// The current gain.
    pub fn volume(&self) -> (r: u32)
        ensures
            r == self.volume,
    {
        self.volume
    }

    /// Resume playback.
    pub fn play(&mut self)
        ensures
            *final(self) == (SinkModel { paused: false, ..*old(self) }),
    {
        self.paused = false;
    }

    /// Suspend playback.
    pub fn pause(&mut self)
        ensures
            *final(self) == (SinkModel { paused: true, ..*old(self) }),
    {
        self.paused = true;
    }

    /// Whether playback is paused.
    pub fn is_paused(&self) -> (r: bool)
        ensures
            r == self.paused,
    {
        self.paused
    }

    /// Drop everything queued; the sink reads as drained.
    pub fn stop(&mut self)
        ensures
            *final(self) == (SinkModel { empty: true, ..*old(self) }),
    {
        self.empty = true;
    }

    /// Whether the queue has drained.
    pub fn empty(&self) -> (r: bool)
        ensures
            r == self.empty,
    {
        self.empty
    }

    /// Record that a source was queued: the sink no longer reads as
    /// drained.
    pub fn append(&mut self)
        ensures
            *final(self) == (SinkModel { empty: false, ..*old(self) }),
    {
        self.empty = false;
    }

    /// Take over the drain state the device reported.
    pub fn observe_empty(&mut self, empty: bool)
        ensures
            *final(self) == (SinkModel { empty, ..*old(self) }),
    {
        self.empty = empty;
    }
}

} // verus!

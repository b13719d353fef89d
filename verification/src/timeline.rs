//! Plain values that the timeline hands to the audio clip logic each block.

use vstd::prelude::*;

verus! {

/// The largest number of frames processed in one block.
pub const MAX_BLOCKSIZE: usize = 128;

/// A position on the timeline, counted in samples.
#[derive(Clone, Copy, Debug, PartialEq, Eq, Structural)]
pub struct SampleTime(pub i64);

/// `t` moved `frames` samples forward, as an integer.
pub open spec fn advanced(t: SampleTime, frames: int) -> SampleTime {
    SampleTime((t.0 + frames) as i64)
}

/// Whether moving `t` forward by `frames` samples stays within `i64`.
pub open spec fn advance_fits(t: SampleTime, frames: int) -> bool {
    t.0 + frames <= i64::MAX
}

impl SampleTime {
    /// A sample time of `frames` samples.
    pub fn from_usize(frames: usize) -> (t: SampleTime)
        requires
            frames <= i64::MAX,
        ensures
            t.0 == frames,
    {
        SampleTime(frames as i64)
    }

    /// This time moved `frames` samples forward.
    pub fn advance(self, frames: usize) -> (t: SampleTime)
        requires
            frames <= MAX_BLOCKSIZE,
            advance_fits(self, frames as int),
        ensures
            t == advanced(self, frames as int),
    {
        SampleTime(self.0 + SampleTime::from_usize(frames).0)
    }
}

/// Where the transport jumped from, when it was seeked during a block.
#[derive(Clone, Copy, Debug, PartialEq, Eq, Structural)]
pub struct SeekInfo {
    pub seeked_from_playhead: SampleTime,
}

/// A jump back to the loop start that happens inside a block.
#[derive(Clone, Copy, Debug, PartialEq, Eq, Structural)]
pub struct LoopBackInfo {
    pub loop_start: SampleTime,
    pub loop_end: SampleTime,
    /// Where the playhead ends this block, after the jump.
    pub playhead_end: SampleTime,
}

/// What the audio clip logic reads from the timeline transport for one block.
#[derive(Clone, Copy, Debug, PartialEq, Eq, Structural)]
pub struct TransportSnapshot {
    pub playing: bool,
    pub playhead: SampleTime,
    pub did_seek: Option<SeekInfo>,
    pub do_loop_back: Option<LoopBackInfo>,
}

impl TransportSnapshot {
    pub fn is_playing(&self) -> (r: bool)
        ensures
            r == self.playing,
    {
        self.playing
    }

    pub fn playhead(&self) -> (r: SampleTime)
        ensures
            r == self.playhead,
    {
        self.playhead
    }
}

} // verus!

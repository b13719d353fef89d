//! Declicking of audio clips when the timeline starts, stops, seeks or loops.
//!
//! The fades themselves are smoothing filters over floating-point gains, run
//! by the caller. This module holds every decision of the declicker: which
//! fade is started, reset, advanced or refreshed in each block, and where on
//! the timeline the fading-out material is read from. Each block is handled
//! in three steps, each given the fades' activity as it stands at that point:
//! `process_start` (stop fade, start/stop, seek), `process_loop` (loop
//! crossfade) and `process_finish` (whether the declicker is still active).

use vstd::prelude::*;
use crate::timeline::{advance_fits, advanced, LoopBackInfo, SampleTime, TransportSnapshot, MAX_BLOCKSIZE};

verus! {

/// One of the five gain fades of the declicker.
#[derive(Clone, Copy, Debug, PartialEq, Eq, Structural)]
pub enum Fade {
    StartStop,
    LoopCrossfadeIn,
    LoopCrossfadeOut,
    SeekCrossfadeIn,
    SeekCrossfadeOut,
}

/// A fade's gain level: silence or full gain.
#[derive(Clone, Copy, Debug, PartialEq, Eq, Structural)]
pub enum FadeLevel {
    Silent,
    Full,
}

/// An operation on one fade, to be carried out in order by the caller.
#[derive(Clone, Copy, Debug, PartialEq, Eq, Structural)]
pub enum FadeOp {
    /// Jump to the level at once.
    Reset(Fade, FadeLevel),
    /// Start moving towards the level.
    SetTarget(Fade, FadeLevel),
    /// Advance the fade by this many frames.
    Process(Fade, usize),
    /// Refresh whether the fade is still moving.
    UpdateStatus(Fade),
}

/// Whether each fade is still moving towards its target.
#[derive(Clone, Copy, Debug, PartialEq, Eq, Structural)]
pub struct FadeActivity {
    pub start_stop: bool,
    pub loop_crossfade_in: bool,
    pub loop_crossfade_out: bool,
    pub seek_crossfade_in: bool,
    pub seek_crossfade_out: bool,
}

/// The declicker shared by all timeline tracks.
#[derive(Clone, Copy, Debug, PartialEq, Eq, Structural)]
pub struct AudioClipDeclick {
    /// Where the audio that fades out after a stop is read from this block.
    pub stop_fade_playhead: Option<SampleTime>,
    pub stop_fade_next_playhead: SampleTime,
    pub loop_crossfade_out_playhead: SampleTime,
    pub loop_crossfade_out_next_playhead: SampleTime,
    pub seek_crossfade_out_playhead: SampleTime,
    pub seek_crossfade_out_next_playhead: SampleTime,
    pub playing: bool,
    pub active: bool,
}

/// The level each fade starts at: the start/stop fade and the crossfade-ins
/// silent, the crossfade-outs at full gain.
pub open spec fn initial_fade_level(fade: Fade) -> FadeLevel {
    match fade {
        Fade::StartStop => FadeLevel::Silent,
        Fade::LoopCrossfadeIn => FadeLevel::Silent,
        Fade::LoopCrossfadeOut => FadeLevel::Full,
        Fade::SeekCrossfadeIn => FadeLevel::Silent,
        Fade::SeekCrossfadeOut => FadeLevel::Full,
    }
}

impl Fade {
    /// The level this fade starts at when the declicker is made.
    pub fn initial_level(self) -> (level: FadeLevel)
        ensures
            level == initial_fade_level(self),
    {
        match self {
            Fade::StartStop => FadeLevel::Silent,
            Fade::LoopCrossfadeIn => FadeLevel::Silent,
            Fade::LoopCrossfadeOut => FadeLevel::Full,
            Fade::SeekCrossfadeIn => FadeLevel::Silent,
            Fade::SeekCrossfadeOut => FadeLevel::Full,
        }
    }
}

/// The number of frames a block of `frames` frames is processed with.
pub open spec fn block_frames(frames: usize) -> int {
    if frames <= MAX_BLOCKSIZE {
        frames as int
    } else {
        MAX_BLOCKSIZE as int
    }
}

/// The declicker as `new` makes it.
pub open spec fn initial_declick() -> AudioClipDeclick {
    AudioClipDeclick {
        stop_fade_playhead: None,
        stop_fade_next_playhead: SampleTime(0),
        loop_crossfade_out_playhead: SampleTime(0),
        loop_crossfade_out_next_playhead: SampleTime(0),
        seek_crossfade_out_playhead: SampleTime(0),
        seek_crossfade_out_next_playhead: SampleTime(0),
        playing: false,
        active: false,
    }
}

// ---------------------------------------------------------------------------
// The first step of a block: the stop fade, start/stop and the seek crossfade.
// ---------------------------------------------------------------------------

/// A running stop fade ends once the start/stop fade has settled; otherwise
/// its read position moves on by one block.
pub open spec fn stop_fade_step(s: AudioClipDeclick, f: int, start_stop_active: bool) -> AudioClipDeclick {
    match s.stop_fade_playhead {
        None => s,
        Some(_) => if !start_stop_active {
            AudioClipDeclick { stop_fade_playhead: None, ..s }
        } else {
            AudioClipDeclick {
                stop_fade_playhead: Some(s.stop_fade_next_playhead),
                stop_fade_next_playhead: advanced(s.stop_fade_next_playhead, f),
                ..s
            }
        },
    }
}

/// Whether the transport stops playing in this block.
pub open spec fn just_stopped(s: AudioClipDeclick, timeline: TransportSnapshot) -> bool {
    s.playing && !timeline.playing
}

/// The declicker follows the transport's playing state; a stop starts a stop
/// fade read from the transport's playhead.
pub open spec fn start_stop_step(s: AudioClipDeclick, f: int, timeline: TransportSnapshot) -> AudioClipDeclick {
    if s.playing == timeline.playing {
        s
    } else if timeline.playing {
        AudioClipDeclick { playing: true, ..s }
    } else {
        AudioClipDeclick {
            playing: false,
            stop_fade_playhead: Some(timeline.playhead),
            stop_fade_next_playhead: advanced(timeline.playhead, f),
            ..s
        }
    }
}

/// Whether a seek crossfade starts in this block: the transport was seeked
/// and it plays or has just stopped.
pub open spec fn starts_seek_crossfade(s: AudioClipDeclick, timeline: TransportSnapshot) -> bool {
    timeline.did_seek is Some && (timeline.playing || s.playing)
}

/// A started seek crossfade reads its fading-out audio from where the
/// transport jumped from; a running one moves on by one block.
pub open spec fn seek_step(
    s: AudioClipDeclick,
    f: int,
    start: bool,
    timeline: TransportSnapshot,
    seek_out_active: bool,
) -> AudioClipDeclick {
    if start {
        AudioClipDeclick {
            seek_crossfade_out_playhead: timeline.did_seek->0.seeked_from_playhead,
            seek_crossfade_out_next_playhead: advanced(timeline.did_seek->0.seeked_from_playhead, f),
            ..s
        }
    } else if seek_out_active {
        AudioClipDeclick {
            seek_crossfade_out_playhead: s.seek_crossfade_out_next_playhead,
            seek_crossfade_out_next_playhead: advanced(s.seek_crossfade_out_next_playhead, f),
            ..s
        }
    } else {
        s
    }
}

/// The declicker after the first step of a block.
pub open spec fn process_start_state(
    s: AudioClipDeclick,
    frames: usize,
    timeline: TransportSnapshot,
    fades: FadeActivity,
) -> AudioClipDeclick {
    let f = block_frames(frames);
    seek_step(
        start_stop_step(stop_fade_step(s, f, fades.start_stop), f, timeline),
        f,
        starts_seek_crossfade(s, timeline),
        timeline,
        fades.seek_crossfade_out,
    )
}

/// The fade operations of the start/stop fade in a block.
pub open spec fn start_stop_ops(s: AudioClipDeclick, f: int, timeline: TransportSnapshot) -> Seq<FadeOp> {
    let target = if s.playing == timeline.playing {
        seq![]
    } else if timeline.playing {
        seq![FadeOp::SetTarget(Fade::StartStop, FadeLevel::Full)]
    } else {
        seq![FadeOp::SetTarget(Fade::StartStop, FadeLevel::Silent)]
    };
    target + seq![FadeOp::Process(Fade::StartStop, f as usize), FadeOp::UpdateStatus(Fade::StartStop)]
}

/// The fade operations of the seek crossfade in a block. When a crossfade
/// starts, the status refreshed after advancing the fading-out side is the
/// loop crossfade-out's.
pub open spec fn seek_ops(f: int, start: bool) -> Seq<FadeOp> {
    if start {
        seq![
            FadeOp::Reset(Fade::SeekCrossfadeIn, FadeLevel::Silent),
            FadeOp::Reset(Fade::SeekCrossfadeOut, FadeLevel::Full),
            FadeOp::SetTarget(Fade::SeekCrossfadeIn, FadeLevel::Full),
            FadeOp::SetTarget(Fade::SeekCrossfadeOut, FadeLevel::Silent),
            FadeOp::Process(Fade::SeekCrossfadeIn, f as usize),
            FadeOp::UpdateStatus(Fade::SeekCrossfadeIn),
            FadeOp::Process(Fade::SeekCrossfadeOut, f as usize),
            FadeOp::UpdateStatus(Fade::LoopCrossfadeOut),
        ]
    } else {
        seq![
            FadeOp::Process(Fade::SeekCrossfadeIn, f as usize),
            FadeOp::UpdateStatus(Fade::SeekCrossfadeIn),
            FadeOp::Process(Fade::SeekCrossfadeOut, f as usize),
            FadeOp::UpdateStatus(Fade::SeekCrossfadeOut),
        ]
    }
}

/// The fade operations of the first step of a block, in order.
pub open spec fn process_start_ops(s: AudioClipDeclick, frames: usize, timeline: TransportSnapshot) -> Seq<FadeOp> {
    let f = block_frames(frames);
    start_stop_ops(s, f, timeline) + seek_ops(f, starts_seek_crossfade(s, timeline))
}

/// The first step of a block moves no timeline position past `i64::MAX`.
pub open spec fn process_start_fits(
    s: AudioClipDeclick,
    frames: usize,
    timeline: TransportSnapshot,
    fades: FadeActivity,
) -> bool {
    let f = block_frames(frames);
    &&& (s.stop_fade_playhead is Some && fades.start_stop) ==> advance_fits(s.stop_fade_next_playhead, f)
    &&& just_stopped(s, timeline) ==> advance_fits(timeline.playhead, f)
    &&& starts_seek_crossfade(s, timeline) ==> advance_fits(timeline.did_seek->0.seeked_from_playhead, f)
    &&& (!starts_seek_crossfade(s, timeline) && fades.seek_crossfade_out) ==> advance_fits(
        s.seek_crossfade_out_next_playhead,
        f,
    )
}

// ---------------------------------------------------------------------------
// The second step of a block: the loop crossfade.
// ---------------------------------------------------------------------------

/// The number of frames after the loop point in a looping block: the distance
/// from the loop start to where the playhead ends, read as an unsigned 64-bit
/// count and capped at `MAX_BLOCKSIZE`.
pub open spec fn loop_back_frames(info: LoopBackInfo) -> int {
    let d = info.playhead_end.0 - info.loop_start.0;
    if 0 <= d && d <= MAX_BLOCKSIZE {
        d
    } else {
        MAX_BLOCKSIZE as int
    }
}

/// The declicker after the second step of a block.
pub open spec fn process_loop_state(
    s: AudioClipDeclick,
    frames: usize,
    timeline: TransportSnapshot,
    fades: FadeActivity,
) -> AudioClipDeclick {
    let f = block_frames(frames);
    match timeline.do_loop_back {
        Some(_) => AudioClipDeclick {
            loop_crossfade_out_playhead: timeline.playhead,
            loop_crossfade_out_next_playhead: advanced(timeline.playhead, f),
            ..s
        },
        None => if fades.loop_crossfade_out {
            AudioClipDeclick {
                loop_crossfade_out_playhead: s.loop_crossfade_out_next_playhead,
                loop_crossfade_out_next_playhead: advanced(s.loop_crossfade_out_next_playhead, f),
                ..s
            }
        } else {
            s
        },
    }
}

/// The fade operations of the second step of a block, in order.
pub open spec fn process_loop_ops(frames: usize, timeline: TransportSnapshot) -> Seq<FadeOp> {
    let f = block_frames(frames);
    match timeline.do_loop_back {
        Some(info) => {
            let second = loop_back_frames(info);
            seq![
                FadeOp::Reset(Fade::LoopCrossfadeIn, FadeLevel::Silent),
                FadeOp::Reset(Fade::LoopCrossfadeOut, FadeLevel::Full),
                FadeOp::SetTarget(Fade::LoopCrossfadeIn, FadeLevel::Full),
                FadeOp::SetTarget(Fade::LoopCrossfadeOut, FadeLevel::Silent),
            ] + if second != 0 {
                seq![
                    FadeOp::Process(Fade::LoopCrossfadeIn, second as usize),
                    FadeOp::Process(Fade::LoopCrossfadeOut, second as usize),
                    FadeOp::UpdateStatus(Fade::LoopCrossfadeIn),
                    FadeOp::UpdateStatus(Fade::LoopCrossfadeOut),
                ]
            } else {
                seq![]
            }
        },
        None => seq![
            FadeOp::Process(Fade::LoopCrossfadeIn, f as usize),
            FadeOp::UpdateStatus(Fade::LoopCrossfadeIn),
            FadeOp::Process(Fade::LoopCrossfadeOut, f as usize),
            FadeOp::UpdateStatus(Fade::LoopCrossfadeOut),
        ],
    }
}

/// The second step of a block moves no timeline position out of `i64`.
pub open spec fn process_loop_fits(
    s: AudioClipDeclick,
    frames: usize,
    timeline: TransportSnapshot,
    fades: FadeActivity,
) -> bool {
    let f = block_frames(frames);
    match timeline.do_loop_back {
        Some(info) => {
            &&& i64::MIN <= info.playhead_end.0 - info.loop_start.0 <= i64::MAX
            &&& advance_fits(timeline.playhead, f)
        },
        None => fades.loop_crossfade_out ==> advance_fits(s.loop_crossfade_out_next_playhead, f),
    }
}

/// Whether any fade is still moving.
pub open spec fn any_fade_active(fades: FadeActivity) -> bool {
    fades.start_stop || fades.loop_crossfade_in || fades.loop_crossfade_out
        || fades.seek_crossfade_in || fades.seek_crossfade_out
}

/// The declicker after the last step of a block: active while the transport
/// plays or any fade moves.
pub open spec fn process_finish_state(s: AudioClipDeclick, fades: FadeActivity) -> AudioClipDeclick {
    AudioClipDeclick { active: s.playing || any_fade_active(fades), ..s }
}

/// The declicker after a whole block of `frames` frames: the three steps in
/// order, each given the fades' activity at its point of the block.
pub open spec fn block_state(
    s: AudioClipDeclick,
    frames: usize,
    timeline: TransportSnapshot,
    start_fades: FadeActivity,
    loop_fades: FadeActivity,
    end_fades: FadeActivity,
) -> AudioClipDeclick {
    process_finish_state(
        process_loop_state(process_start_state(s, frames, timeline, start_fades), frames, timeline, loop_fades),
        end_fades,
    )
}

/// The declicker after its running fades' next read positions were carried
/// to a new tempo map by `remap`, as `update_tempo_map` does with a remap
/// that always gives the same result.
pub open spec fn retimed(
    s: AudioClipDeclick,
    fades: FadeActivity,
    remap: spec_fn(SampleTime) -> SampleTime,
) -> AudioClipDeclick {
    AudioClipDeclick {
        stop_fade_next_playhead: if s.stop_fade_playhead is Some {
            remap(s.stop_fade_next_playhead)
        } else {
            s.stop_fade_next_playhead
        },
        seek_crossfade_out_next_playhead: if fades.seek_crossfade_out {
            remap(s.seek_crossfade_out_next_playhead)
        } else {
            s.seek_crossfade_out_next_playhead
        },
        loop_crossfade_out_next_playhead: if fades.loop_crossfade_out {
            remap(s.loop_crossfade_out_next_playhead)
        } else {
            s.loop_crossfade_out_next_playhead
        },
        ..s
    }
}

impl AudioClipDeclick {
    /// A declicker with the transport stopped and no fade running.
    pub fn new() -> (d: AudioClipDeclick)
        ensures
            d == initial_declick(),
    {
        AudioClipDeclick {
            stop_fade_playhead: None,
            stop_fade_next_playhead: SampleTime(0),
            loop_crossfade_out_playhead: SampleTime(0),
            loop_crossfade_out_next_playhead: SampleTime(0),
            seek_crossfade_out_playhead: SampleTime(0),
            seek_crossfade_out_next_playhead: SampleTime(0),
            playing: false,
            active: false,
        }
    }

    /// Whether the first step of a block can be taken without a timeline
    /// position leaving `i64`.
    pub fn can_process_start(&self, frames: usize, timeline: &TransportSnapshot, fades: &FadeActivity) -> (r: bool)
        ensures
            r == process_start_fits(*self, frames, *timeline, *fades),
    {
        let frames = if frames < MAX_BLOCKSIZE { frames } else { MAX_BLOCKSIZE };
        let room = i64::MAX - frames as i64;
        let stopped = self.playing && !timeline.playing;
        let start_seek = timeline.did_seek.is_some() && (timeline.playing || self.playing);
        let stop_ok = !(self.stop_fade_playhead.is_some() && fades.start_stop)
            || self.stop_fade_next_playhead.0 <= room;
        let toggle_ok = !stopped || timeline.playhead.0 <= room;
        let seek_ok = match timeline.did_seek {
            Some(info) => !start_seek || info.seeked_from_playhead.0 <= room,
            None => true,
        };
        let running_ok = start_seek || !fades.seek_crossfade_out || self.seek_crossfade_out_next_playhead.0 <= room;
        stop_ok && toggle_ok && seek_ok && running_ok
    }

    /// Whether the second step of a block can be taken without a timeline
    /// position leaving `i64`.
    pub fn can_process_loop(&self, frames: usize, timeline: &TransportSnapshot, fades: &FadeActivity) -> (r: bool)
        ensures
            r == process_loop_fits(*self, frames, *timeline, *fades),
    {
        let frames = if frames < MAX_BLOCKSIZE { frames } else { MAX_BLOCKSIZE };
        let room = i64::MAX - frames as i64;
        match timeline.do_loop_back {
            Some(info) => {
                let end = info.playhead_end.0;
                let start = info.loop_start.0;
                let distance_ok = if start >= 0 {
                    end >= i64::MIN + start
                } else {
                    end <= i64::MAX + start
                };
                distance_ok && timeline.playhead.0 <= room
            },
            None => !fades.loop_crossfade_out || self.loop_crossfade_out_next_playhead.0 <= room,
        }
    }

    /// Moves a running stop fade on by one block, or ends it once the
    /// start/stop fade has settled.
    fn tick_stop_fade(&mut self, frames: usize, start_stop_active: bool)
        requires
            frames <= MAX_BLOCKSIZE,
            (old(self).stop_fade_playhead is Some && start_stop_active) ==> advance_fits(
                old(self).stop_fade_next_playhead,
                frames as int,
            ),
        ensures
            *final(self) == stop_fade_step(*old(self), frames as int, start_stop_active),
    {
        if self.stop_fade_playhead.is_some() {
            if !start_stop_active {
                self.stop_fade_playhead = None;
            } else {
                self.stop_fade_playhead = Some(self.stop_fade_next_playhead);
                self.stop_fade_next_playhead = self.stop_fade_next_playhead.advance(frames);
            }
        }
    }

    /// Follows the transport's playing state and appends the start/stop
    /// fade's operations. Returns whether the transport just stopped.
    fn follow_transport(&mut self, frames: usize, timeline: &TransportSnapshot, ops: &mut Vec<FadeOp>) -> (stopped: bool)
        requires
            frames <= MAX_BLOCKSIZE,
            just_stopped(*old(self), *timeline) ==> advance_fits(timeline.playhead, frames as int),
        ensures
            *final(self) == start_stop_step(*old(self), frames as int, *timeline),
            final(ops)@ == old(ops)@ + start_stop_ops(*old(self), frames as int, *timeline),
            stopped == just_stopped(*old(self), *timeline),
    {
        let ghost ops_before = ops@;
        let mut stopped = false;
        if self.playing != timeline.is_playing() {
            self.playing = timeline.is_playing();
            if self.playing {
                // Fade in.
                ops.push(FadeOp::SetTarget(Fade::StartStop, FadeLevel::Full));
            } else {
                // Fade out.
                ops.push(FadeOp::SetTarget(Fade::StartStop, FadeLevel::Silent));
                stopped = true;
                self.stop_fade_playhead = Some(timeline.playhead());
                self.stop_fade_next_playhead = timeline.playhead().advance(frames);
            }
        }
        ops.push(FadeOp::Process(Fade::StartStop, frames));
        ops.push(FadeOp::UpdateStatus(Fade::StartStop));
        assert(ops@ =~= ops_before + start_stop_ops(*old(self), frames as int, *timeline));
        stopped
    }

    /// Starts a seek crossfade when `start`, or moves a running one on by one
    /// block, and appends the seek crossfade's operations.
    fn step_seek_crossfade(
        &mut self,
        frames: usize,
        start: bool,
        timeline: &TransportSnapshot,
        seek_out_active: bool,
        ops: &mut Vec<FadeOp>,
    )
        requires
            frames <= MAX_BLOCKSIZE,
            start ==> timeline.did_seek is Some,
            start ==> advance_fits(timeline.did_seek->0.seeked_from_playhead, frames as int),
            (!start && seek_out_active) ==> advance_fits(old(self).seek_crossfade_out_next_playhead, frames as int),
        ensures
            *final(self) == seek_step(*old(self), frames as int, start, *timeline, seek_out_active),
            final(ops)@ == old(ops)@ + seek_ops(frames as int, start),
    {
        let ghost ops_before = ops@;
        if start {
            let seek_info = timeline.did_seek.unwrap();
            // Start the crossfade.
            ops.push(FadeOp::Reset(Fade::SeekCrossfadeIn, FadeLevel::Silent));
            ops.push(FadeOp::Reset(Fade::SeekCrossfadeOut, FadeLevel::Full));
            ops.push(FadeOp::SetTarget(Fade::SeekCrossfadeIn, FadeLevel::Full));
            ops.push(FadeOp::SetTarget(Fade::SeekCrossfadeOut, FadeLevel::Silent));
            ops.push(FadeOp::Process(Fade::SeekCrossfadeIn, frames));
            ops.push(FadeOp::UpdateStatus(Fade::SeekCrossfadeIn));
            ops.push(FadeOp::Process(Fade::SeekCrossfadeOut, frames));
            ops.push(FadeOp::UpdateStatus(Fade::LoopCrossfadeOut));

            self.seek_crossfade_out_playhead = seek_info.seeked_from_playhead;
            self.seek_crossfade_out_next_playhead = seek_info.seeked_from_playhead.advance(frames);
        } else {
            // Move any still running seek crossfade on.
            if seek_out_active {
                self.seek_crossfade_out_playhead = self.seek_crossfade_out_next_playhead;
                self.seek_crossfade_out_next_playhead = self.seek_crossfade_out_next_playhead.advance(frames);
            }
            ops.push(FadeOp::Process(Fade::SeekCrossfadeIn, frames));
            ops.push(FadeOp::UpdateStatus(Fade::SeekCrossfadeIn));
            ops.push(FadeOp::Process(Fade::SeekCrossfadeOut, frames));
            ops.push(FadeOp::UpdateStatus(Fade::SeekCrossfadeOut));
        }
        assert(ops@ =~= ops_before + seek_ops(frames as int, start));
    }

    /// The first step of a block of `frames` frames: the stop fade, the
    /// start/stop fade and the seek crossfade. `fades` is the activity of the
    /// fades at the start of the block. Returns the fade operations to carry
    /// out, in order.
    pub fn process_start(&mut self, frames: usize, timeline: &TransportSnapshot, fades: &FadeActivity) -> (ops: Vec<FadeOp>)
        requires
            process_start_fits(*old(self), frames, *timeline, *fades),
        ensures
            *final(self) == process_start_state(*old(self), frames, *timeline, *fades),
            ops@ == process_start_ops(*old(self), frames, *timeline),
    {
        let frames = if frames < MAX_BLOCKSIZE { frames } else { MAX_BLOCKSIZE };
        let mut ops: Vec<FadeOp> = Vec::new();

        self.tick_stop_fade(frames, fades.start_stop);
        let just_stopped = self.follow_transport(frames, timeline, &mut ops);

        // A stopped transport that did not just stop starts no seek
        // crossfade, so that no short sound plays.
        let do_seek_crossfade = self.playing || just_stopped;
        let start = timeline.did_seek.is_some() && do_seek_crossfade;
        self.step_seek_crossfade(frames, start, timeline, fades.seek_crossfade_out, &mut ops);
        assert(ops@ =~= process_start_ops(*old(self), frames, *timeline));
        ops
    }

    /// The second step of a block of `frames` frames: the loop crossfade.
    /// `fades` is the activity of the fades after the operations of the first
    /// step were carried out. Returns the fade operations to carry out, in
    /// order.
    pub fn process_loop(&mut self, frames: usize, timeline: &TransportSnapshot, fades: &FadeActivity) -> (ops: Vec<FadeOp>)
        requires
            process_loop_fits(*old(self), frames, *timeline, *fades),
        ensures
            *final(self) == process_loop_state(*old(self), frames, *timeline, *fades),
            ops@ == process_loop_ops(frames, *timeline),
    {
        let frames = if frames < MAX_BLOCKSIZE { frames } else { MAX_BLOCKSIZE };
        let mut ops: Vec<FadeOp> = Vec::new();

        match timeline.do_loop_back {
            Some(loop_back) => {
                let distance = loop_back.playhead_end.0 - loop_back.loop_start.0;
                let second_frames: usize = if 0 <= distance && distance < MAX_BLOCKSIZE as i64 {
                    distance as usize
                } else {
                    MAX_BLOCKSIZE
                };

                ops.push(FadeOp::Reset(Fade::LoopCrossfadeIn, FadeLevel::Silent));
                ops.push(FadeOp::Reset(Fade::LoopCrossfadeOut, FadeLevel::Full));
                ops.push(FadeOp::SetTarget(Fade::LoopCrossfadeIn, FadeLevel::Full));
                ops.push(FadeOp::SetTarget(Fade::LoopCrossfadeOut, FadeLevel::Silent));

                if second_frames != 0 {
                    ops.push(FadeOp::Process(Fade::LoopCrossfadeIn, second_frames));
                    ops.push(FadeOp::Process(Fade::LoopCrossfadeOut, second_frames));
                    ops.push(FadeOp::UpdateStatus(Fade::LoopCrossfadeIn));
                    ops.push(FadeOp::UpdateStatus(Fade::LoopCrossfadeOut));
                }

                self.loop_crossfade_out_playhead = timeline.playhead();
                self.loop_crossfade_out_next_playhead = timeline.playhead().advance(frames);
            },
            None => {
                if fades.loop_crossfade_out {
                    self.loop_crossfade_out_playhead = self.loop_crossfade_out_next_playhead;
                    self.loop_crossfade_out_next_playhead = self.loop_crossfade_out_next_playhead.advance(frames);
                }
                ops.push(FadeOp::Process(Fade::LoopCrossfadeIn, frames));
                ops.push(FadeOp::UpdateStatus(Fade::LoopCrossfadeIn));
                ops.push(FadeOp::Process(Fade::LoopCrossfadeOut, frames));
                ops.push(FadeOp::UpdateStatus(Fade::LoopCrossfadeOut));
            },
        }
        assert(ops@ =~= process_loop_ops(frames, *timeline));
        ops
    }

    /// Re-times the read positions of the fades still running after a tempo
    /// change: `remap` carries a timeline position under the old tempo map to
    /// the nearest sample under the new one. `fades` is the activity of the
    /// fades. The stop fade's next position is re-timed while a stop fade
    /// runs, the seek and loop crossfade-outs' next positions while those
    /// fades move; all else stays as it was. Where `remap` always gives the
    /// same result `r(t)` for `t`, the declicker becomes `retimed(.., r)`.
    pub fn update_tempo_map<F: Fn(SampleTime) -> SampleTime>(&mut self, fades: &FadeActivity, remap: F)
        requires
            forall|t: SampleTime| remap.requires((t,)),
        ensures
            old(self).stop_fade_playhead is Some ==> remap.ensures(
                (old(self).stop_fade_next_playhead,),
                final(self).stop_fade_next_playhead,
            ),
            old(self).stop_fade_playhead is None ==> final(self).stop_fade_next_playhead
                == old(self).stop_fade_next_playhead,
            fades.seek_crossfade_out ==> remap.ensures(
                (old(self).seek_crossfade_out_next_playhead,),
                final(self).seek_crossfade_out_next_playhead,
            ),
            !fades.seek_crossfade_out ==> final(self).seek_crossfade_out_next_playhead
                == old(self).seek_crossfade_out_next_playhead,
            fades.loop_crossfade_out ==> remap.ensures(
                (old(self).loop_crossfade_out_next_playhead,),
                final(self).loop_crossfade_out_next_playhead,
            ),
            !fades.loop_crossfade_out ==> final(self).loop_crossfade_out_next_playhead
                == old(self).loop_crossfade_out_next_playhead,
            forall|r: spec_fn(SampleTime) -> SampleTime|
                #![trigger retimed(*old(self), *fades, r)]
                (forall|t: SampleTime, u: SampleTime| #[trigger] remap.ensures((t,), u) ==> u == r(t))
                    ==> *final(self) == retimed(*old(self), *fades, r),
            final(self).stop_fade_playhead == old(self).stop_fade_playhead,
            final(self).loop_crossfade_out_playhead == old(self).loop_crossfade_out_playhead,
            final(self).seek_crossfade_out_playhead == old(self).seek_crossfade_out_playhead,
            final(self).playing == old(self).playing,
            final(self).active == old(self).active,
    {
        if self.stop_fade_playhead.is_some() {
            self.stop_fade_next_playhead = remap(self.stop_fade_next_playhead);
        }
        if fades.seek_crossfade_out {
            self.seek_crossfade_out_next_playhead = remap(self.seek_crossfade_out_next_playhead);
        }
        if fades.loop_crossfade_out {
            self.loop_crossfade_out_next_playhead = remap(self.loop_crossfade_out_next_playhead);
        }
    }

    /// Whether the declicker still has work: the transport plays or a fade
    /// moved in the last block.
    pub fn is_active(&self) -> (r: bool)
        ensures
            r == self.active,
    {
        self.active
    }

    /// Where the audio that fades out after a stop is read from in this
    /// block, while a stop fade runs.
    pub fn stop_fade_playhead(&self) -> (r: Option<SampleTime>)
        ensures
            r == self.stop_fade_playhead,
    {
        self.stop_fade_playhead
    }

    /// Where the audio that fades out in a loop crossfade is read from in
    /// this block.
    pub fn loop_crossfade_out_playhead(&self) -> (r: SampleTime)
        ensures
            r == self.loop_crossfade_out_playhead,
    {
        self.loop_crossfade_out_playhead
    }

    /// Where the audio that fades out in a seek crossfade is read from in
    /// this block.
    pub fn seek_crossfade_out_playhead(&self) -> (r: SampleTime)
        ensures
            r == self.seek_crossfade_out_playhead,
    {
        self.seek_crossfade_out_playhead
    }

    /// The last step of a block: the declicker stays active while the
    /// transport plays or any fade still moves. `fades` is the activity of the
    /// fades after all operations of the block were carried out.
    pub fn process_finish(&mut self, fades: &FadeActivity)
        ensures
            *final(self) == process_finish_state(*old(self), *fades),
    {
        self.active = self.playing || fades.start_stop || fades.loop_crossfade_in
            || fades.loop_crossfade_out || fades.seek_crossfade_in || fades.seek_crossfade_out;
    }
}

} // verus!

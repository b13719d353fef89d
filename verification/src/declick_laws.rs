//! Properties of the declicker that hold over whole blocks.

use vstd::prelude::*;
use crate::timeline::{advanced, SampleTime, TransportSnapshot, MAX_BLOCKSIZE};
use crate::declick::{
    block_frames, block_state, just_stopped, process_finish_state, seek_ops, loop_back_frames, process_loop_ops, process_loop_state,
    process_start_ops, process_start_state, retimed, starts_seek_crossfade, AudioClipDeclick, Fade,
    FadeActivity, FadeLevel, FadeOp,
};

verus! {

/// After the first step of a block the declicker plays exactly when the
/// transport does.
pub proof fn lemma_playing_follows_transport(
    s: AudioClipDeclick,
    frames: usize,
    timeline: TransportSnapshot,
    fades: FadeActivity,
)
    ensures
        process_start_state(s, frames, timeline, fades).playing == timeline.playing,
{
}

/// A transport that stops starts a stop fade: the start/stop fade is sent
/// towards silence and the fading-out audio is read from the transport's
/// playhead, one block at a time.
pub proof fn lemma_stop_starts_stop_fade(
    s: AudioClipDeclick,
    frames: usize,
    timeline: TransportSnapshot,
    fades: FadeActivity,
)
    requires
        s.playing,
        !timeline.playing,
    ensures
        process_start_state(s, frames, timeline, fades).stop_fade_playhead == Some(timeline.playhead),
        process_start_state(s, frames, timeline, fades).stop_fade_next_playhead == advanced(
            timeline.playhead,
            block_frames(frames),
        ),
        process_start_ops(s, frames, timeline)[0] == FadeOp::SetTarget(Fade::StartStop, FadeLevel::Silent),
{
}

/// A transport that is stopped and did not just stop starts no seek
/// crossfade, so that no short sound plays: no fade is reset or given a new
/// target, and a running seek crossfade-out only moves on.
pub proof fn lemma_no_seek_crossfade_while_stopped(
    s: AudioClipDeclick,
    frames: usize,
    timeline: TransportSnapshot,
    fades: FadeActivity,
)
    requires
        !s.playing,
        !timeline.playing,
    ensures
        forall|i: int|
            0 <= i < process_start_ops(s, frames, timeline).len() ==> !(
            #[trigger] process_start_ops(s, frames, timeline)[i] is Reset),
        forall|i: int|
            0 <= i < process_start_ops(s, frames, timeline).len() ==> !(
            #[trigger] process_start_ops(s, frames, timeline)[i] is SetTarget),
        process_start_state(s, frames, timeline, fades).seek_crossfade_out_playhead == (if fades.seek_crossfade_out {
            s.seek_crossfade_out_next_playhead
        } else {
            s.seek_crossfade_out_playhead
        }),
{
}

/// A seek while the transport plays, or in the block it stops, starts a seek
/// crossfade whose fading-out audio is read from where the transport jumped
/// from.
pub proof fn lemma_seek_starts_crossfade(
    s: AudioClipDeclick,
    frames: usize,
    timeline: TransportSnapshot,
    fades: FadeActivity,
)
    requires
        timeline.did_seek is Some,
        s.playing || timeline.playing,
    ensures
        process_start_state(s, frames, timeline, fades).seek_crossfade_out_playhead
            == timeline.did_seek->0.seeked_from_playhead,
        process_start_ops(s, frames, timeline).contains(
            FadeOp::Reset(Fade::SeekCrossfadeIn, FadeLevel::Silent),
        ),
{
    let ops = process_start_ops(s, frames, timeline);
    let k = ops.len() - 8;
    assert(ops[k] == FadeOp::Reset(Fade::SeekCrossfadeIn, FadeLevel::Silent));
}

/// No fade is ever advanced by more than `MAX_BLOCKSIZE` frames in one
/// operation.
pub proof fn lemma_fades_advance_at_most_a_block(
    s: AudioClipDeclick,
    frames: usize,
    timeline: TransportSnapshot,
)
    ensures
        forall|i: int|
            0 <= i < process_start_ops(s, frames, timeline).len() ==> (#[trigger] process_start_ops(s, frames, timeline)[i] matches FadeOp::Process(
                _,
                n,
            ) ==> n <= MAX_BLOCKSIZE),
        forall|i: int|
            0 <= i < process_loop_ops(frames, timeline).len() ==> (#[trigger] process_loop_ops(frames, timeline)[i] matches FadeOp::Process(
                _,
                n,
            ) ==> n <= MAX_BLOCKSIZE),
{
}

/// After the first step of a block, a running stop fade and a moving seek
/// crossfade-out each read their next block exactly one block after the
/// current one.
pub proof fn lemma_fade_outs_read_consecutive_blocks(
    s: AudioClipDeclick,
    frames: usize,
    timeline: TransportSnapshot,
    fades: FadeActivity,
)
    ensures
        ({
            let t = process_start_state(s, frames, timeline, fades);
            t.stop_fade_playhead is Some ==> t.stop_fade_next_playhead == advanced(
                t.stop_fade_playhead->0,
                block_frames(frames),
            )
        }),
        ({
            let t = process_start_state(s, frames, timeline, fades);
            (fades.seek_crossfade_out || (timeline.did_seek is Some && (s.playing || timeline.playing)))
                ==> t.seek_crossfade_out_next_playhead == advanced(
                t.seek_crossfade_out_playhead,
                block_frames(frames),
            )
        }),
        ({
            let t = process_loop_state(s, frames, timeline, fades);
            (fades.loop_crossfade_out || timeline.do_loop_back is Some)
                ==> t.loop_crossfade_out_next_playhead == advanced(
                t.loop_crossfade_out_playhead,
                block_frames(frames),
            )
        }),
{
}

/// A declicker with the transport stopped, no stop fade and no fade moving
/// stays as it is through a block in which the transport stays stopped
/// without seeking or looping.
pub proof fn lemma_settled_declick_stays_put(
    s: AudioClipDeclick,
    frames: usize,
    timeline: TransportSnapshot,
    fades: FadeActivity,
)
    requires
        !s.playing,
        s.stop_fade_playhead is None,
        !timeline.playing,
        timeline.did_seek is None,
        timeline.do_loop_back is None,
        !fades.seek_crossfade_out,
        !fades.loop_crossfade_out,
    ensures
        process_loop_state(process_start_state(s, frames, timeline, fades), frames, timeline, fades) == s,
{
}

/// A block of more than `MAX_BLOCKSIZE` frames is handled exactly as a block
/// of `MAX_BLOCKSIZE` frames: same state, same fade operations.
pub proof fn lemma_oversized_block_is_a_full_block(
    s: AudioClipDeclick,
    frames: usize,
    timeline: TransportSnapshot,
    start_fades: FadeActivity,
    loop_fades: FadeActivity,
)
    requires
        frames > MAX_BLOCKSIZE,
    ensures
        process_start_state(s, frames, timeline, start_fades) == process_start_state(
            s,
            MAX_BLOCKSIZE,
            timeline,
            start_fades,
        ),
        process_start_ops(s, frames, timeline) == process_start_ops(s, MAX_BLOCKSIZE, timeline),
        process_loop_state(s, frames, timeline, loop_fades) == process_loop_state(
            s,
            MAX_BLOCKSIZE,
            timeline,
            loop_fades,
        ),
        process_loop_ops(frames, timeline) == process_loop_ops(MAX_BLOCKSIZE, timeline),
{
}

/// A stop fade runs on across blocks: in the block after one that leaves a
/// stop fade reading at `p`, it reads one (capped) block further on while the
/// start/stop fade still moves, and ends once it has settled, unless the
/// transport stops again.
pub proof fn lemma_stop_fade_runs_on(
    s0: AudioClipDeclick,
    f0: usize,
    t0: TransportSnapshot,
    start0: FadeActivity,
    loop0: FadeActivity,
    end0: FadeActivity,
    f1: usize,
    t1: TransportSnapshot,
    start1: FadeActivity,
)
    requires
        block_state(s0, f0, t0, start0, loop0, end0).stop_fade_playhead is Some,
        !just_stopped(block_state(s0, f0, t0, start0, loop0, end0), t1),
    ensures
        ({
            let s1 = block_state(s0, f0, t0, start0, loop0, end0);
            process_start_state(s1, f1, t1, start1).stop_fade_playhead == if start1.start_stop {
                Some(advanced(s1.stop_fade_playhead->0, block_frames(f0)))
            } else {
                None
            }
        }),
{
    lemma_fade_outs_read_consecutive_blocks(s0, f0, t0, start0);
}

/// A seek while the transport is stopped and did not just stop is ignored:
/// the block goes exactly as it would without the seek.
pub proof fn lemma_seek_while_stopped_is_ignored(
    s: AudioClipDeclick,
    frames: usize,
    timeline: TransportSnapshot,
    start_fades: FadeActivity,
    loop_fades: FadeActivity,
    end_fades: FadeActivity,
)
    requires
        !s.playing,
        !timeline.playing,
    ensures
        ({
            let unseeked = TransportSnapshot { did_seek: None, ..timeline };
            &&& process_start_state(s, frames, timeline, start_fades) == process_start_state(
                s,
                frames,
                unseeked,
                start_fades,
            )
            &&& process_start_ops(s, frames, timeline) == process_start_ops(s, frames, unseeked)
            &&& process_loop_ops(frames, timeline) == process_loop_ops(frames, unseeked)
            &&& block_state(s, frames, timeline, start_fades, loop_fades, end_fades) == block_state(
                s,
                frames,
                unseeked,
                start_fades,
                loop_fades,
                end_fades,
            )
        }),
{
}

/// A fade-out's read position continues from where the previous block ended:
/// in a block without seek or loop, a seek or loop crossfade-out that moved or
/// started in the previous block reads one (capped) block further on while it
/// still moves, and stays put otherwise.
pub proof fn lemma_fade_out_positions_continue(
    s0: AudioClipDeclick,
    f0: usize,
    t0: TransportSnapshot,
    start0: FadeActivity,
    loop0: FadeActivity,
    end0: FadeActivity,
    f1: usize,
    t1: TransportSnapshot,
    start1: FadeActivity,
    loop1: FadeActivity,
)
    requires
        t1.did_seek is None,
        t1.do_loop_back is None,
    ensures
        ({
            let s1 = block_state(s0, f0, t0, start0, loop0, end0);
            (start0.seek_crossfade_out || starts_seek_crossfade(s0, t0))
                ==> process_start_state(s1, f1, t1, start1).seek_crossfade_out_playhead == if start1.seek_crossfade_out {
                advanced(s1.seek_crossfade_out_playhead, block_frames(f0))
            } else {
                s1.seek_crossfade_out_playhead
            }
        }),
        ({
            let s1 = block_state(s0, f0, t0, start0, loop0, end0);
            (loop0.loop_crossfade_out || t0.do_loop_back is Some) ==> process_loop_state(
                process_start_state(s1, f1, t1, start1),
                f1,
                t1,
                loop1,
            ).loop_crossfade_out_playhead == if loop1.loop_crossfade_out {
                advanced(s1.loop_crossfade_out_playhead, block_frames(f0))
            } else {
                s1.loop_crossfade_out_playhead
            }
        }),
{
    lemma_fade_outs_read_consecutive_blocks(s0, f0, t0, start0);
    lemma_fade_outs_read_consecutive_blocks(process_start_state(s0, f0, t0, start0), f0, t0, loop0);
}

/// After a tempo change, the fade-outs that keep running read from their
/// re-timed next positions: the stop fade, seek crossfade-out and loop
/// crossfade-out each read `remap` of where they would have read.
pub proof fn lemma_retimed_positions_are_read_next(
    s0: AudioClipDeclick,
    f0: usize,
    t0: TransportSnapshot,
    start0: FadeActivity,
    loop0: FadeActivity,
    end0: FadeActivity,
    fades: FadeActivity,
    remap: spec_fn(SampleTime) -> SampleTime,
    f1: usize,
    t1: TransportSnapshot,
    start1: FadeActivity,
    loop1: FadeActivity,
)
    requires
        t1.did_seek is None,
        t1.do_loop_back is None,
        !just_stopped(block_state(s0, f0, t0, start0, loop0, end0), t1),
    ensures
        ({
            let s1 = block_state(s0, f0, t0, start0, loop0, end0);
            let u = retimed(s1, fades, remap);
            (s1.stop_fade_playhead is Some && start1.start_stop)
                ==> process_start_state(u, f1, t1, start1).stop_fade_playhead == Some(
                remap(advanced(s1.stop_fade_playhead->0, block_frames(f0))),
            )
        }),
        ({
            let s1 = block_state(s0, f0, t0, start0, loop0, end0);
            let u = retimed(s1, fades, remap);
            ((start0.seek_crossfade_out || starts_seek_crossfade(s0, t0)) && fades.seek_crossfade_out
                && start1.seek_crossfade_out) ==> process_start_state(
                u,
                f1,
                t1,
                start1,
            ).seek_crossfade_out_playhead == remap(advanced(s1.seek_crossfade_out_playhead, block_frames(f0)))
        }),
        ({
            let s1 = block_state(s0, f0, t0, start0, loop0, end0);
            let u = retimed(s1, fades, remap);
            ((loop0.loop_crossfade_out || t0.do_loop_back is Some) && fades.loop_crossfade_out
                && loop1.loop_crossfade_out) ==> process_loop_state(
                process_start_state(u, f1, t1, start1),
                f1,
                t1,
                loop1,
            ).loop_crossfade_out_playhead == remap(advanced(s1.loop_crossfade_out_playhead, block_frames(f0)))
        }),
{
    lemma_fade_outs_read_consecutive_blocks(s0, f0, t0, start0);
    lemma_fade_outs_read_consecutive_blocks(process_start_state(s0, f0, t0, start0), f0, t0, loop0);
}

/// The loop crossfade's operations depend only on the block size and on how
/// far past the loop start the playhead ends.
pub proof fn lemma_loop_crossfade_depends_on_distance(
    frames: usize,
    t1: TransportSnapshot,
    t2: TransportSnapshot,
)
    requires
        t1.do_loop_back is Some,
        t2.do_loop_back is Some,
        loop_back_frames(t1.do_loop_back->0) == loop_back_frames(t2.do_loop_back->0),
    ensures
        process_loop_ops(frames, t1) == process_loop_ops(frames, t2),
{
}

/// The fade an operation acts on.
pub open spec fn fade_of(op: FadeOp) -> Fade {
    match op {
        FadeOp::Reset(fade, _) => fade,
        FadeOp::SetTarget(fade, _) => fade,
        FadeOp::Process(fade, _) => fade,
        FadeOp::UpdateStatus(fade) => fade,
    }
}

/// After the last step of a block the declicker is active exactly when the
/// transport plays or at least one of the five fades moves; in particular a
/// stopped declicker whose start/stop fade is still fading out stays active.
pub proof fn lemma_active_while_playing_or_fading(s: AudioClipDeclick, fades: FadeActivity)
    ensures
        process_finish_state(s, fades).active == (s.playing || fades.start_stop || fades.loop_crossfade_in
            || fades.loop_crossfade_out || fades.seek_crossfade_in || fades.seek_crossfade_out),
        fades.start_stop ==> process_finish_state(s, fades).active,
        process_finish_state(s, fades).playing == s.playing,
{
}

/// The start/stop fade is never reset, so its gain never jumps: no operation
/// of either step of a block resets it.
pub proof fn lemma_start_stop_fade_never_jumps(s: AudioClipDeclick, frames: usize, timeline: TransportSnapshot)
    ensures
        forall|i: int|
            0 <= i < process_start_ops(s, frames, timeline).len() ==> !(
            #[trigger] process_start_ops(s, frames, timeline)[i] matches FadeOp::Reset(Fade::StartStop, _)),
        forall|i: int|
            0 <= i < process_loop_ops(frames, timeline).len() ==> #[trigger] fade_of(
                process_loop_ops(frames, timeline)[i],
            ) != Fade::StartStop,
{
}

/// Every block advances the start/stop fade by the block's frames, at most
/// `MAX_BLOCKSIZE`, and then refreshes its status, whatever the playing states
/// of declicker and transport; before that, it is sent towards full gain when
/// the transport starts and towards silence when it stops. No other operation
/// of the block touches the start/stop fade.
pub proof fn lemma_start_stop_fade_advances_every_block(
    s: AudioClipDeclick,
    frames: usize,
    timeline: TransportSnapshot,
)
    ensures
        ({
            let ops = process_start_ops(s, frames, timeline);
            let n: usize = if frames <= MAX_BLOCKSIZE { frames } else { MAX_BLOCKSIZE };
            let k: int = if s.playing == timeline.playing { 0 } else { 1 };
            &&& ops.len() >= k + 2
            &&& ops[k] == FadeOp::Process(Fade::StartStop, n)
            &&& ops[k + 1] == FadeOp::UpdateStatus(Fade::StartStop)
            &&& (s.playing && !timeline.playing) ==> ops[0] == FadeOp::SetTarget(Fade::StartStop, FadeLevel::Silent)
            &&& (!s.playing && timeline.playing) ==> ops[0] == FadeOp::SetTarget(Fade::StartStop, FadeLevel::Full)
            &&& forall|i: int| k + 2 <= i < ops.len() ==> #[trigger] fade_of(ops[i]) != Fade::StartStop
        }),
{
}

/// In a block where the transport stops, the start/stop fade's operations are
/// exactly: glide towards silence, advance by the block's frames, refresh.
pub proof fn lemma_stop_glides_to_silence(s: AudioClipDeclick, frames: usize, timeline: TransportSnapshot)
    requires
        s.playing,
        !timeline.playing,
    ensures
        ({
            let ops = process_start_ops(s, frames, timeline);
            let n: usize = if frames <= MAX_BLOCKSIZE { frames } else { MAX_BLOCKSIZE };
            &&& ops.take(3) == seq![
                FadeOp::SetTarget(Fade::StartStop, FadeLevel::Silent),
                FadeOp::Process(Fade::StartStop, n),
                FadeOp::UpdateStatus(Fade::StartStop),
            ]
            &&& forall|i: int| 3 <= i < ops.len() ==> #[trigger] fade_of(ops[i]) != Fade::StartStop
        }),
{
    let ops = process_start_ops(s, frames, timeline);
    assert(ops.take(3) =~= seq![
        FadeOp::SetTarget(Fade::StartStop, FadeLevel::Silent),
        FadeOp::Process(Fade::StartStop, if frames <= MAX_BLOCKSIZE { frames } else { MAX_BLOCKSIZE }),
        FadeOp::UpdateStatus(Fade::StartStop),
    ]);
}

/// A block of at most `MAX_BLOCKSIZE` frames is processed with exactly its
/// own frame count: every fade advanced in the first step, and in the second
/// step without a loop, moves by `frames`, and the read positions set up in
/// the block lie `frames` samples ahead.
pub proof fn lemma_block_uses_its_own_frame_count(
    s: AudioClipDeclick,
    frames: usize,
    timeline: TransportSnapshot,
    start_fades: FadeActivity,
    loop_fades: FadeActivity,
)
    requires
        frames <= MAX_BLOCKSIZE,
    ensures
        forall|i: int|
            0 <= i < process_start_ops(s, frames, timeline).len() ==> (#[trigger] process_start_ops(
                s,
                frames,
                timeline,
            )[i] matches FadeOp::Process(_, m) ==> m == frames),
        timeline.do_loop_back is None ==> forall|i: int|
            0 <= i < process_loop_ops(frames, timeline).len() ==> (#[trigger] process_loop_ops(
                frames,
                timeline,
            )[i] matches FadeOp::Process(_, m) ==> m == frames),
        (s.playing && !timeline.playing && timeline.playhead.0 + frames <= i64::MAX) ==> process_start_state(
            s,
            frames,
            timeline,
            start_fades,
        ).stop_fade_next_playhead.0 == timeline.playhead.0 + frames,
        (timeline.do_loop_back is Some && timeline.playhead.0 + frames <= i64::MAX) ==> process_loop_state(
            s,
            frames,
            timeline,
            loop_fades,
        ).loop_crossfade_out_next_playhead.0 == timeline.playhead.0 + frames,
        (starts_seek_crossfade(s, timeline) && timeline.did_seek->0.seeked_from_playhead.0 + frames <= i64::MAX)
            ==> process_start_state(s, frames, timeline, start_fades).seek_crossfade_out_next_playhead.0
            == timeline.did_seek->0.seeked_from_playhead.0 + frames,
{
}

/// A block of more than `MAX_BLOCKSIZE` frames advances each fade of the
/// first step by exactly `MAX_BLOCKSIZE` frames.
pub proof fn lemma_large_block_uses_max_blocksize(s: AudioClipDeclick, frames: usize, timeline: TransportSnapshot)
    requires
        frames > MAX_BLOCKSIZE,
    ensures
        forall|i: int|
            0 <= i < process_start_ops(s, frames, timeline).len() ==> (#[trigger] process_start_ops(
                s,
                frames,
                timeline,
            )[i] matches FadeOp::Process(_, m) ==> m == MAX_BLOCKSIZE),
{
}

/// A loop back starts a loop crossfade: the crossfade-in jumps to silence and
/// glides to full gain, the crossfade-out jumps to full gain and glides to
/// silence, and both are advanced by the frames after the loop point, read as
/// an unsigned count and capped at `MAX_BLOCKSIZE`; with none, they are not
/// advanced. The fading-out audio is read from the block's playhead.
pub proof fn lemma_loop_back_starts_loop_crossfade(
    s: AudioClipDeclick,
    frames: usize,
    timeline: TransportSnapshot,
    loop_fades: FadeActivity,
)
    requires
        timeline.do_loop_back is Some,
    ensures
        ({
            let ops = process_loop_ops(frames, timeline);
            let info = timeline.do_loop_back->0;
            let d = info.playhead_end.0 - info.loop_start.0;
            let m: usize = if 0 <= d <= MAX_BLOCKSIZE { d as usize } else { MAX_BLOCKSIZE };
            &&& ops.take(4) == seq![
                FadeOp::Reset(Fade::LoopCrossfadeIn, FadeLevel::Silent),
                FadeOp::Reset(Fade::LoopCrossfadeOut, FadeLevel::Full),
                FadeOp::SetTarget(Fade::LoopCrossfadeIn, FadeLevel::Full),
                FadeOp::SetTarget(Fade::LoopCrossfadeOut, FadeLevel::Silent),
            ]
            &&& d == 0 ==> ops.len() == 4
            &&& d != 0 ==> ops.skip(4) == seq![
                FadeOp::Process(Fade::LoopCrossfadeIn, m),
                FadeOp::Process(Fade::LoopCrossfadeOut, m),
                FadeOp::UpdateStatus(Fade::LoopCrossfadeIn),
                FadeOp::UpdateStatus(Fade::LoopCrossfadeOut),
            ]
        }),
        process_loop_state(s, frames, timeline, loop_fades).loop_crossfade_out_playhead == timeline.playhead,
{
    let ops = process_loop_ops(frames, timeline);
    assert(ops.take(4) =~= seq![
        FadeOp::Reset(Fade::LoopCrossfadeIn, FadeLevel::Silent),
        FadeOp::Reset(Fade::LoopCrossfadeOut, FadeLevel::Full),
        FadeOp::SetTarget(Fade::LoopCrossfadeIn, FadeLevel::Full),
        FadeOp::SetTarget(Fade::LoopCrossfadeOut, FadeLevel::Silent),
    ]);
    let info = timeline.do_loop_back->0;
    let d = info.playhead_end.0 - info.loop_start.0;
    let m: usize = if 0 <= d <= MAX_BLOCKSIZE { d as usize } else { MAX_BLOCKSIZE };
    if d != 0 {
        assert(ops.skip(4) =~= seq![
            FadeOp::Process(Fade::LoopCrossfadeIn, m),
            FadeOp::Process(Fade::LoopCrossfadeOut, m),
            FadeOp::UpdateStatus(Fade::LoopCrossfadeIn),
            FadeOp::UpdateStatus(Fade::LoopCrossfadeOut),
        ]);
    }
}

/// A started seek crossfade: after the start/stop fade's operations, the
/// crossfade-in jumps to silence and glides to full gain, the crossfade-out
/// jumps to full gain and glides to silence, both advance by the block's
/// frames, and the block ends by refreshing the status of the crossfade-in
/// and of the loop crossfade-out. Without a started crossfade, both seek fades
/// are only advanced and refreshed.
pub proof fn lemma_seek_crossfade_ops(s: AudioClipDeclick, frames: usize, timeline: TransportSnapshot)
    ensures
        ({
            let ops = process_start_ops(s, frames, timeline);
            let n: usize = if frames <= MAX_BLOCKSIZE { frames } else { MAX_BLOCKSIZE };
            let k: int = if s.playing == timeline.playing { 2 } else { 3 };
            &&& (timeline.did_seek is Some && (s.playing || timeline.playing)) ==> ops.skip(k) == seq![
                FadeOp::Reset(Fade::SeekCrossfadeIn, FadeLevel::Silent),
                FadeOp::Reset(Fade::SeekCrossfadeOut, FadeLevel::Full),
                FadeOp::SetTarget(Fade::SeekCrossfadeIn, FadeLevel::Full),
                FadeOp::SetTarget(Fade::SeekCrossfadeOut, FadeLevel::Silent),
                FadeOp::Process(Fade::SeekCrossfadeIn, n),
                FadeOp::UpdateStatus(Fade::SeekCrossfadeIn),
                FadeOp::Process(Fade::SeekCrossfadeOut, n),
                FadeOp::UpdateStatus(Fade::LoopCrossfadeOut),
            ]
            &&& !(timeline.did_seek is Some && (s.playing || timeline.playing)) ==> ops.skip(k) == seq![
                FadeOp::Process(Fade::SeekCrossfadeIn, n),
                FadeOp::UpdateStatus(Fade::SeekCrossfadeIn),
                FadeOp::Process(Fade::SeekCrossfadeOut, n),
                FadeOp::UpdateStatus(Fade::SeekCrossfadeOut),
            ]
        }),
{
    let ops = process_start_ops(s, frames, timeline);
    let k: int = if s.playing == timeline.playing { 2 } else { 3 };
    assert(ops.skip(k) =~= seek_ops(block_frames(frames), starts_seek_crossfade(s, timeline)));
}

} // verus!

use daw_backend::declick::{AudioClipDeclick, Fade, FadeActivity, FadeLevel, FadeOp};
use daw_backend::timeline::{LoopBackInfo, SampleTime, SeekInfo, TransportSnapshot, MAX_BLOCKSIZE};

fn settled() -> FadeActivity {
    FadeActivity {
        start_stop: false,
        loop_crossfade_in: false,
        loop_crossfade_out: false,
        seek_crossfade_in: false,
        seek_crossfade_out: false,
    }
}

fn transport(playing: bool, playhead: i64) -> TransportSnapshot {
    TransportSnapshot { playing, playhead: SampleTime(playhead), did_seek: None, do_loop_back: None }
}

#[test]
fn new_declick_is_idle() {
    let d = AudioClipDeclick::new();
    assert!(!d.is_active());
    assert_eq!(d.stop_fade_playhead(), None);
    assert_eq!(d.loop_crossfade_out_playhead(), SampleTime(0));
    assert_eq!(d.seek_crossfade_out_playhead(), SampleTime(0));
    assert!(!d.playing);
}

#[test]
fn starting_the_transport_fades_in() {
    let mut d = AudioClipDeclick::new();
    let ops = d.process_start(64, &transport(true, 1000), &settled());
    assert!(d.playing);
    assert_eq!(
        ops,
        vec![
            FadeOp::SetTarget(Fade::StartStop, FadeLevel::Full),
            FadeOp::Process(Fade::StartStop, 64),
            FadeOp::UpdateStatus(Fade::StartStop),
            FadeOp::Process(Fade::SeekCrossfadeIn, 64),
            FadeOp::UpdateStatus(Fade::SeekCrossfadeIn),
            FadeOp::Process(Fade::SeekCrossfadeOut, 64),
            FadeOp::UpdateStatus(Fade::SeekCrossfadeOut),
        ]
    );
    assert_eq!(d.stop_fade_playhead(), None);
}

#[test]
fn stopping_starts_a_stop_fade_at_the_playhead() {
    let mut d = AudioClipDeclick::new();
    d.process_start(64, &transport(true, 0), &settled());
    let ops = d.process_start(64, &transport(false, 5000), &settled());
    assert!(!d.playing);
    assert_eq!(ops[0], FadeOp::SetTarget(Fade::StartStop, FadeLevel::Silent));
    assert_eq!(d.stop_fade_playhead(), Some(SampleTime(5000)));
    assert_eq!(d.stop_fade_next_playhead, SampleTime(5064));

    // While the fade runs, its read position moves on one block at a time.
    let mut running = settled();
    running.start_stop = true;
    d.process_start(64, &transport(false, 5000), &running);
    assert_eq!(d.stop_fade_playhead(), Some(SampleTime(5064)));
    assert_eq!(d.stop_fade_next_playhead, SampleTime(5128));

    // Once the start/stop fade has settled, the stop fade ends.
    d.process_start(64, &transport(false, 5000), &settled());
    assert_eq!(d.stop_fade_playhead(), None);
}

#[test]
fn frames_are_capped_at_the_block_size() {
    let mut d = AudioClipDeclick::new();
    let ops = d.process_start(10_000, &transport(true, 0), &settled());
    assert!(ops.contains(&FadeOp::Process(Fade::StartStop, MAX_BLOCKSIZE)));
    for op in ops {
        if let FadeOp::Process(_, n) = op {
            assert!(n <= MAX_BLOCKSIZE);
        }
    }
    let mut tl = transport(true, 300);
    tl.do_loop_back = Some(LoopBackInfo {
        loop_start: SampleTime(0),
        loop_end: SampleTime(1000),
        playhead_end: SampleTime(900),
    });
    let ops = d.process_loop(10_000, &tl, &settled());
    assert!(ops.contains(&FadeOp::Process(Fade::LoopCrossfadeIn, MAX_BLOCKSIZE)));
    assert_eq!(d.loop_crossfade_out_next_playhead, SampleTime(300 + 128));
}

#[test]
fn seek_while_playing_starts_a_seek_crossfade() {
    let mut d = AudioClipDeclick::new();
    d.process_start(32, &transport(true, 0), &settled());
    let mut tl = transport(true, 8000);
    tl.did_seek = Some(SeekInfo { seeked_from_playhead: SampleTime(200) });
    let ops = d.process_start(32, &tl, &settled());
    assert_eq!(
        ops,
        vec![
            FadeOp::Process(Fade::StartStop, 32),
            FadeOp::UpdateStatus(Fade::StartStop),
            FadeOp::Reset(Fade::SeekCrossfadeIn, FadeLevel::Silent),
            FadeOp::Reset(Fade::SeekCrossfadeOut, FadeLevel::Full),
            FadeOp::SetTarget(Fade::SeekCrossfadeIn, FadeLevel::Full),
            FadeOp::SetTarget(Fade::SeekCrossfadeOut, FadeLevel::Silent),
            FadeOp::Process(Fade::SeekCrossfadeIn, 32),
            FadeOp::UpdateStatus(Fade::SeekCrossfadeIn),
            FadeOp::Process(Fade::SeekCrossfadeOut, 32),
            FadeOp::UpdateStatus(Fade::LoopCrossfadeOut),
        ]
    );
    assert_eq!(d.seek_crossfade_out_playhead(), SampleTime(200));
    assert_eq!(d.seek_crossfade_out_next_playhead, SampleTime(232));

    // The fading-out side moves on while it is active.
    let mut fades = settled();
    fades.seek_crossfade_out = true;
    d.process_start(32, &transport(true, 8032), &fades);
    assert_eq!(d.seek_crossfade_out_playhead(), SampleTime(232));
    assert_eq!(d.seek_crossfade_out_next_playhead, SampleTime(264));
}

#[test]
fn seek_in_the_block_that_stops_starts_a_seek_crossfade() {
    let mut d = AudioClipDeclick::new();
    d.process_start(32, &transport(true, 0), &settled());
    let mut tl = transport(false, 400);
    tl.did_seek = Some(SeekInfo { seeked_from_playhead: SampleTime(77) });
    let ops = d.process_start(32, &tl, &settled());
    assert!(ops.contains(&FadeOp::Reset(Fade::SeekCrossfadeIn, FadeLevel::Silent)));
    assert_eq!(d.seek_crossfade_out_playhead(), SampleTime(77));
}

#[test]
fn seek_while_stopped_starts_no_crossfade() {
    let mut d = AudioClipDeclick::new();
    let mut tl = transport(false, 400);
    tl.did_seek = Some(SeekInfo { seeked_from_playhead: SampleTime(77) });
    let ops = d.process_start(32, &tl, &settled());
    for op in &ops {
        assert!(!matches!(op, FadeOp::Reset(..) | FadeOp::SetTarget(..)));
    }
    assert_eq!(d.seek_crossfade_out_playhead(), SampleTime(0));
}

#[test]
fn loop_back_starts_a_loop_crossfade() {
    let mut d = AudioClipDeclick::new();
    let mut tl = transport(true, 40);
    tl.do_loop_back = Some(LoopBackInfo {
        loop_start: SampleTime(1000),
        loop_end: SampleTime(5000),
        playhead_end: SampleTime(1040),
    });
    let ops = d.process_loop(64, &tl, &settled());
    assert_eq!(
        ops,
        vec![
            FadeOp::Reset(Fade::LoopCrossfadeIn, FadeLevel::Silent),
            FadeOp::Reset(Fade::LoopCrossfadeOut, FadeLevel::Full),
            FadeOp::SetTarget(Fade::LoopCrossfadeIn, FadeLevel::Full),
            FadeOp::SetTarget(Fade::LoopCrossfadeOut, FadeLevel::Silent),
            FadeOp::Process(Fade::LoopCrossfadeIn, 40),
            FadeOp::Process(Fade::LoopCrossfadeOut, 40),
            FadeOp::UpdateStatus(Fade::LoopCrossfadeIn),
            FadeOp::UpdateStatus(Fade::LoopCrossfadeOut),
        ]
    );
    assert_eq!(d.loop_crossfade_out_playhead(), SampleTime(40));
    assert_eq!(d.loop_crossfade_out_next_playhead, SampleTime(104));
}

#[test]
fn loop_back_exactly_at_the_block_end_processes_nothing() {
    let mut d = AudioClipDeclick::new();
    let mut tl = transport(true, 7);
    tl.do_loop_back = Some(LoopBackInfo {
        loop_start: SampleTime(500),
        loop_end: SampleTime(900),
        playhead_end: SampleTime(500),
    });
    let ops = d.process_loop(64, &tl, &settled());
    assert_eq!(ops.len(), 4);
    assert!(ops.iter().all(|op| !matches!(op, FadeOp::Process(..))));
}

#[test]
fn loop_back_before_the_loop_start_uses_a_full_block() {
    let mut d = AudioClipDeclick::new();
    let mut tl = transport(true, 7);
    tl.do_loop_back = Some(LoopBackInfo {
        loop_start: SampleTime(500),
        loop_end: SampleTime(900),
        playhead_end: SampleTime(499),
    });
    let ops = d.process_loop(16, &tl, &settled());
    assert_eq!(ops[4], FadeOp::Process(Fade::LoopCrossfadeIn, MAX_BLOCKSIZE));
}

#[test]
fn running_loop_crossfade_moves_on() {
    let mut d = AudioClipDeclick::new();
    d.loop_crossfade_out_next_playhead = SampleTime(300);
    let mut fades = settled();
    fades.loop_crossfade_out = true;
    let ops = d.process_loop(20, &transport(true, 0), &fades);
    assert_eq!(d.loop_crossfade_out_playhead(), SampleTime(300));
    assert_eq!(d.loop_crossfade_out_next_playhead, SampleTime(320));
    assert_eq!(
        ops,
        vec![
            FadeOp::Process(Fade::LoopCrossfadeIn, 20),
            FadeOp::UpdateStatus(Fade::LoopCrossfadeIn),
            FadeOp::Process(Fade::LoopCrossfadeOut, 20),
            FadeOp::UpdateStatus(Fade::LoopCrossfadeOut),
        ]
    );
}

#[test]
fn activity_follows_transport_and_fades() {
    let mut d = AudioClipDeclick::new();
    d.process_finish(&settled());
    assert!(!d.is_active());
    let mut fades = settled();
    fades.seek_crossfade_in = true;
    d.process_finish(&fades);
    assert!(d.is_active());
    d.process_start(8, &transport(true, 0), &settled());
    d.process_finish(&settled());
    assert!(d.is_active());
}

#[test]
fn settled_declick_stays_put() {
    let mut d = AudioClipDeclick::new();
    let before = d;
    d.process_start(64, &transport(false, 123), &settled());
    d.process_loop(64, &transport(false, 123), &settled());
    assert_eq!(d, before);
}

#[test]
fn tempo_change_retimes_running_fades_only() {
    let mut d = AudioClipDeclick::new();
    d.stop_fade_playhead = Some(SampleTime(10));
    d.stop_fade_next_playhead = SampleTime(100);
    d.seek_crossfade_out_next_playhead = SampleTime(200);
    d.loop_crossfade_out_next_playhead = SampleTime(300);
    let mut fades = settled();
    fades.loop_crossfade_out = true;
    d.update_tempo_map(&fades, |t: SampleTime| SampleTime(t.0 * 2));
    assert_eq!(d.stop_fade_next_playhead, SampleTime(200));
    assert_eq!(d.seek_crossfade_out_next_playhead, SampleTime(200));
    assert_eq!(d.loop_crossfade_out_next_playhead, SampleTime(600));
    assert_eq!(d.stop_fade_playhead(), Some(SampleTime(10)));
}

#[test]
fn overflow_checks_match_the_positions_moved() {
    let mut d = AudioClipDeclick::new();
    d.stop_fade_playhead = Some(SampleTime(0));
    d.stop_fade_next_playhead = SampleTime(i64::MAX - 10);
    let mut fades = settled();
    assert!(d.can_process_start(64, &transport(false, 0), &fades));
    fades.start_stop = true;
    assert!(!d.can_process_start(64, &transport(false, 0), &fades));
    assert!(d.can_process_start(10, &transport(false, 0), &fades));

    let mut tl = transport(true, 0);
    tl.do_loop_back = Some(LoopBackInfo {
        loop_start: SampleTime(-10),
        loop_end: SampleTime(0),
        playhead_end: SampleTime(i64::MAX),
    });
    assert!(!d.can_process_loop(8, &tl, &settled()));
    tl.do_loop_back = Some(LoopBackInfo {
        loop_start: SampleTime(10),
        loop_end: SampleTime(0),
        playhead_end: SampleTime(i64::MAX),
    });
    assert!(d.can_process_loop(8, &tl, &settled()));
}

#[test]
fn sample_time_advances_by_frames() {
    assert_eq!(SampleTime::from_usize(42), SampleTime(42));
    assert_eq!(SampleTime(-5).advance(12), SampleTime(7));
}

#[test]
fn crossfade_outs_start_at_full_gain() {
    assert_eq!(Fade::StartStop.initial_level(), FadeLevel::Silent);
    assert_eq!(Fade::LoopCrossfadeIn.initial_level(), FadeLevel::Silent);
    assert_eq!(Fade::LoopCrossfadeOut.initial_level(), FadeLevel::Full);
    assert_eq!(Fade::SeekCrossfadeIn.initial_level(), FadeLevel::Silent);
    assert_eq!(Fade::SeekCrossfadeOut.initial_level(), FadeLevel::Full);
}

#[test]
fn oversized_block_acts_as_a_full_block() {
    let mut a = AudioClipDeclick::new();
    let mut b = AudioClipDeclick::new();
    let mut tl = transport(true, 50);
    tl.did_seek = Some(SeekInfo { seeked_from_playhead: SampleTime(9) });
    assert_eq!(a.process_start(5000, &tl, &settled()), b.process_start(MAX_BLOCKSIZE, &tl, &settled()));
    assert_eq!(a, b);
}

#[test]
fn seek_while_stopped_matches_no_seek() {
    let mut a = AudioClipDeclick::new();
    let mut b = AudioClipDeclick::new();
    let mut seeked = transport(false, 50);
    seeked.did_seek = Some(SeekInfo { seeked_from_playhead: SampleTime(9) });
    let ops_a = a.process_start(16, &seeked, &settled());
    let ops_b = b.process_start(16, &transport(false, 50), &settled());
    assert_eq!(ops_a, ops_b);
    assert_eq!(a, b);
}

#[test]
fn retimed_fade_out_is_read_next_block() {
    let mut d = AudioClipDeclick::new();
    d.process_start(16, &transport(true, 0), &settled());
    let mut tl = transport(true, 1000);
    tl.did_seek = Some(SeekInfo { seeked_from_playhead: SampleTime(100) });
    d.process_start(16, &tl, &settled());
    assert_eq!(d.seek_crossfade_out_next_playhead, SampleTime(116));
    let mut fades = settled();
    fades.seek_crossfade_out = true;
    d.update_tempo_map(&fades, |t: SampleTime| SampleTime(t.0 + 1000));
    d.process_start(16, &transport(true, 1016), &fades);
    assert_eq!(d.seek_crossfade_out_playhead(), SampleTime(1116));
}

use vibemusic::engine::{
    AudioWorker, CommandAction, CrossfadeState, FadeStep, PushOutcome, CHUNK_SAMPLES,
};
use vibemusic::probe::MediaMetadata;
use vibemusic::samples::VOLUME_UNIT;
use vibemusic::state::Command;

fn meta(duration_ms: u64, sample_rate: u32, channels: u16) -> MediaMetadata {
    MediaMetadata { duration_ms, sample_rate, channels }
}

/// Drive the hard-cut protocol as the worker loop does: stop, probe, rebuild
/// the stream, spawn the decoder, adopt the track.
fn play_hard_cut(w: &mut AudioWorker, path: &str, m: &MediaMetadata) {
    w.stop();
    w.stream_built(m.sample_rate, m.channels);
    w.hard_cut_spawned(path.to_string(), m);
}

#[test]
fn fresh_worker_is_idle() {
    let w = AudioWorker::new(44100, 2);
    assert!(!w.state.is_playing);
    assert!(!w.state.is_paused);
    assert_eq!(w.state.current_file, None);
    assert_eq!(w.state.position_ms, 0);
    assert_eq!(w.state.duration_ms, 0);
    assert_eq!(w.state.volume, VOLUME_UNIT);
    assert!(!w.primary);
    assert!(!w.secondary);
}

#[test]
fn hard_cut_starts_playing_at_zero() {
    let mut w = AudioWorker::new(44100, 2);
    play_hard_cut(&mut w, "a.mp3", &meta(10000, 44100, 2));
    assert!(w.state.is_playing);
    assert!(!w.state.is_paused);
    assert_eq!(w.state.current_file, Some("a.mp3".to_string()));
    assert_eq!(w.state.duration_ms, 10000);
    assert_eq!(w.current_position_ms, 0);
    assert!(w.primary);
    assert!(!w.secondary);
}

#[test]
fn pause_and_resume_toggle_audibility_without_teardown() {
    let mut w = AudioWorker::new(44100, 2);
    play_hard_cut(&mut w, "a.mp3", &meta(10000, 44100, 2));
    w.pause();
    assert!(!w.playing);
    assert!(w.state.is_paused);
    assert!(w.primary, "pause must not kill the decoder");
    assert!(w.ring.is_some(), "pause must not drop the queue");
    assert!(!w.progress_tick(), "no progress events while paused");
    w.resume();
    assert!(w.playing);
    assert!(!w.state.is_paused);
    assert!(w.progress_tick());
}

#[test]
fn position_advances_with_pushed_samples() {
    let mut w = AudioWorker::new(44100, 2);
    play_hard_cut(&mut w, "a.mp3", &meta(10000, 44100, 2));
    // 44100 Hz * 2 channels = 88 samples per millisecond (truncated).
    let chunk = vec![0i32; CHUNK_SAMPLES];
    let r = w.push_plain(&chunk);
    assert!(matches!(r, PushOutcome::Pushed));
    assert_eq!(w.samples_played, 8192);
    assert_eq!(w.current_position_ms, 8192 / 88);
    let before = w.current_position_ms;
    let r = w.push_plain(&chunk);
    assert!(matches!(r, PushOutcome::Pushed));
    assert!(w.current_position_ms >= before, "position never goes backward");
    assert_eq!(w.current_position_ms, 16384 / 88);
    assert!(w.progress_tick());
    assert_eq!(w.state.position_ms, 16384 / 88);
}

#[test]
fn empty_read_finishes_the_track() {
    let mut w = AudioWorker::new(44100, 2);
    play_hard_cut(&mut w, "a.mp3", &meta(10000, 44100, 2));
    let r = w.push_plain(&Vec::new());
    assert!(matches!(r, PushOutcome::Finished));
    // The worker loop then stops everything and reports the finish.
    let kills = w.stop();
    assert!(kills.had_primary);
    assert_eq!(w.state.current_file, None);
}

#[test]
fn seek_restarts_the_pipeline_at_the_offset() {
    let mut w = AudioWorker::new(44100, 2);
    play_hard_cut(&mut w, "a.mp3", &meta(10000, 44100, 2));
    let chunk = vec![7i32; 1000];
    w.push_plain(&chunk);
    let plan = w.seek_begin();
    assert!(plan.proceed);
    assert!(plan.had_primary);
    assert!(!plan.had_secondary);
    assert!(w.ring.is_none(), "the old queue is dropped with its samples");
    w.stream_built(44100, 2);
    w.seek_spawned(2500);
    assert_eq!(w.current_position_ms, 2500);
    assert_eq!(w.state.position_ms, 2500);
    assert_eq!(w.samples_played, 2500 * 88200 / 1000);
    // The rebuilt queue holds nothing from before the seek.
    assert_eq!(w.ring.as_ref().unwrap().occupied(), 0);
}

#[test]
fn seek_without_a_track_does_nothing() {
    let mut w = AudioWorker::new(44100, 2);
    let plan = w.seek_begin();
    assert!(!plan.proceed);
    assert!(!plan.had_primary);
}

#[test]
fn crossfade_policy_requires_playing_setting_decoder_and_new_track() {
    let mut w = AudioWorker::new(44100, 2);
    play_hard_cut(&mut w, "a.mp3", &meta(10000, 44100, 2));
    assert!(!w.should_crossfade(&"b.mp3".to_string()), "no crossfade configured");
    w.set_crossfade(3000);
    assert!(w.should_crossfade(&"b.mp3".to_string()));
    assert!(!w.should_crossfade(&"a.mp3".to_string()), "same track never crossfades");
    w.pause();
    assert!(!w.should_crossfade(&"b.mp3".to_string()), "paused playback hard-cuts");
    w.resume();
    let kills = w.stop();
    assert!(kills.had_primary);
    assert!(!w.should_crossfade(&"b.mp3".to_string()), "no decoder, no crossfade");
}

#[test]
fn crossfade_scenario_two_decoders_then_one() {
    // Play track A (10000 ms) with crossfade 0: a hard cut.
    let mut w = AudioWorker::new(44100, 2);
    play_hard_cut(&mut w, "a.mp3", &meta(10000, 44100, 2));
    assert!(w.state.is_playing);
    assert_eq!(w.current_position_ms, 0);
    // While A plays at 4000 ms, play track B with crossfade 3000 ms.
    w.set_crossfade(3000);
    assert!(w.should_crossfade(&"b.mp3".to_string()));
    w.begin_crossfade("b.mp3".to_string(), &meta(20000, 48000, 2), 4000);
    // Two live decoders, and the snapshot already names B.
    assert!(w.primary);
    assert!(w.secondary);
    assert!(matches!(w.crossfade, CrossfadeState::Fading { start_ms: 4000, duration_ms: 3000 }));
    assert_eq!(w.state.current_file, Some("b.mp3".to_string()));
    assert_eq!(w.state.duration_ms, 20000);
    // Mid-fade the loop mixes; current_file stays B throughout.
    match w.fade_step(5500) {
        FadeStep::Mix { elapsed_ms, duration_ms } => {
            assert_eq!(elapsed_ms, 1500);
            assert_eq!(duration_ms, 3000);
        }
        _ => panic!("expected a mixing step mid-fade"),
    }
    let outgoing = vec![100i32; 64];
    let incoming = vec![200i32; 64];
    let r = w.push_mixed(&outgoing, &incoming, 5500);
    assert!(matches!(r, PushOutcome::Pushed));
    assert_eq!(w.state.current_file, Some("b.mp3".to_string()));
    // After 3000 ms elapsed the fade promotes: only B's decoder remains.
    assert!(matches!(w.fade_step(7000), FadeStep::Promote));
    w.finish_crossfade();
    assert!(w.primary);
    assert!(!w.secondary);
    assert!(matches!(w.crossfade, CrossfadeState::Inactive));
    assert_eq!(w.state.current_file, Some("b.mp3".to_string()));
}

#[test]
fn crossfade_spawn_failure_falls_back_to_hard_cut() {
    let mut w = AudioWorker::new(44100, 2);
    play_hard_cut(&mut w, "a.mp3", &meta(10000, 44100, 2));
    w.set_crossfade(3000);
    assert!(w.should_crossfade(&"b.mp3".to_string()));
    // The secondary decoder failed to spawn: the worker loop performs the
    // hard cut instead. Exactly one decoder (the new track's) is active
    // afterward, with no trace of the old one.
    play_hard_cut(&mut w, "b.mp3", &meta(20000, 44100, 2));
    assert!(w.primary);
    assert!(!w.secondary);
    assert!(matches!(w.crossfade, CrossfadeState::Inactive));
    assert_eq!(w.state.current_file, Some("b.mp3".to_string()));
    assert!(w.state.is_playing);
    assert_eq!(w.ring.as_ref().unwrap().occupied(), 0, "no samples of the old track remain");
}

#[test]
fn incoming_silence_ends_a_crossfade() {
    let mut w = AudioWorker::new(44100, 2);
    play_hard_cut(&mut w, "a.mp3", &meta(10000, 44100, 2));
    w.set_crossfade(3000);
    w.begin_crossfade("b.mp3".to_string(), &meta(20000, 44100, 2), 1000);
    let outgoing = vec![100i32; 64];
    let r = w.push_mixed(&outgoing, &Vec::new(), 1500);
    assert!(matches!(r, PushOutcome::Finished));
}

#[test]
fn stop_terminates_everything_even_mid_crossfade() {
    let mut w = AudioWorker::new(44100, 2);
    play_hard_cut(&mut w, "a.mp3", &meta(10000, 44100, 2));
    w.set_crossfade(3000);
    w.begin_crossfade("b.mp3".to_string(), &meta(20000, 44100, 2), 4000);
    assert!(w.primary && w.secondary);
    let kills = w.stop();
    assert!(kills.had_primary, "stop terminates the outgoing decoder");
    assert!(kills.had_secondary, "stop terminates the incoming decoder");
    assert_eq!(w.state.current_file, None);
    assert_eq!(w.state.position_ms, 0);
    assert_eq!(w.current_position_ms, 0);
    assert!(!w.state.is_playing);
    assert!(w.ring.is_none());
    assert!(matches!(w.crossfade, CrossfadeState::Inactive));
    assert_eq!(w.state.volume, VOLUME_UNIT, "volume survives a stop");
}

#[test]
fn set_volume_reaches_snapshot_and_callback() {
    let mut w = AudioWorker::new(44100, 2);
    w.set_volume(VOLUME_UNIT / 2);
    assert_eq!(w.volume, 500);
    assert_eq!(w.state.volume, 500);
}

#[test]
fn device_fault_forces_one_rebuild_when_a_track_is_loaded() {
    let mut w = AudioWorker::new(44100, 2);
    w.note_device_fault();
    assert!(w.device_fault);
    assert!(!w.device_change_begin(), "nothing loaded, nothing to rebuild");
    assert!(!w.device_fault);
    play_hard_cut(&mut w, "a.mp3", &meta(10000, 44100, 2));
    w.note_device_fault();
    assert!(w.device_change_begin());
    assert!(w.ring.is_none());
    w.stream_built(48000, 2);
    assert_eq!(w.device_sample_rate, 48000);
    assert!(w.ring.is_some());
}

#[test]
fn decode_stops_once_queue_is_half_full() {
    let mut w = AudioWorker::new(44100, 2);
    assert!(!w.can_accept(), "no queue, no decoding");
    play_hard_cut(&mut w, "a.mp3", &meta(10000, 44100, 2));
    assert!(w.can_accept());
    // Fill the queue to half: capacity is one second (88200 samples),
    // so the loop stops accepting near 44100.
    let chunk = vec![0i32; CHUNK_SAMPLES];
    let mut pushes = 0;
    while w.can_accept() {
        w.push_plain(&chunk);
        pushes += 1;
        assert!(pushes < 100, "the fill loop must stop once half-full");
    }
    let q = w.ring.as_ref().unwrap();
    assert!(q.occupied() >= 44100 - CHUNK_SAMPLES);
    assert!(q.occupied() <= q.capacity());
}

#[test]
fn stream_failure_leaves_no_queue() {
    let mut w = AudioWorker::new(44100, 2);
    play_hard_cut(&mut w, "a.mp3", &meta(10000, 44100, 2));
    w.stream_failed();
    assert!(w.ring.is_none());
    assert!(!w.stream_active);
    assert!(!w.can_accept());
}

#[test]
fn commands_map_to_their_transitions() {
    let mut w = AudioWorker::new(44100, 2);
    play_hard_cut(&mut w, "a.mp3", &meta(10000, 44100, 2));
    match w.handle_command(Command::Play {
        path: "b.mp3".to_string(),
        title: "t".to_string(),
        artist: "r".to_string(),
        album: "l".to_string(),
        cover: None,
    }) {
        CommandAction::StartPlay { path, .. } => assert_eq!(path, "b.mp3"),
        _ => panic!("a play command starts the play protocol"),
    }
    assert!(matches!(w.handle_command(Command::Pause), CommandAction::Publish));
    assert!(w.state.is_paused);
    assert!(matches!(w.handle_command(Command::Resume), CommandAction::Publish));
    assert!(matches!(
        w.handle_command(Command::Seek(1200)),
        CommandAction::StartSeek { pos_ms: 1200 }
    ));
    assert!(matches!(w.handle_command(Command::SetVolume(250)), CommandAction::Quiet));
    assert_eq!(w.state.volume, 250);
    assert!(matches!(w.handle_command(Command::SetCrossfade(2000)), CommandAction::Quiet));
    assert_eq!(w.crossfade_setting_ms, 2000);
    assert!(matches!(
        w.handle_command(Command::SetDevice("usb".to_string())),
        CommandAction::RebuildStream
    ));
    assert_eq!(w.selected_device, Some("usb".to_string()));
    assert!(w.ring.is_none(), "a device change rebuilds the stream and queue");
    match w.handle_command(Command::Stop) {
        CommandAction::KillAndPublish(kills) => assert!(kills.had_primary),
        _ => panic!("stop reports the decoders to terminate"),
    }
    assert!(matches!(
        w.handle_command(Command::SetDevice("usb".to_string())),
        CommandAction::Quiet
    ), "with nothing loaded a device change rebuilds nothing");
}

#[test]
fn failed_hard_cut_spawn_leaves_the_empty_state() {
    let mut w = AudioWorker::new(44100, 2);
    play_hard_cut(&mut w, "a.mp3", &meta(10000, 44100, 2));
    // Play B: the worker stops everything, probes B (successfully), rebuilds
    // the stream — and then the decoder spawn fails, so the adoption step
    // never runs.
    w.stop();
    let probed = meta(20000, 48000, 2);
    w.stream_built(probed.sample_rate, probed.channels);
    assert!(!w.state.is_playing);
    assert!(!w.state.is_paused);
    assert_eq!(w.state.current_file, None);
    assert_eq!(w.state.position_ms, 0);
    assert_eq!(w.state.duration_ms, 0, "no duration of a track that never started");
    assert!(!w.primary, "no decoder is active");
    assert!(!w.secondary);
}

#[test]
fn crossfade_during_crossfade_restarts_the_fade() {
    let mut w = AudioWorker::new(44100, 2);
    play_hard_cut(&mut w, "a.mp3", &meta(10000, 44100, 2));
    w.set_crossfade(3000);
    w.begin_crossfade("b.mp3".to_string(), &meta(20000, 44100, 2), 4000);
    assert!(w.primary && w.secondary);
    // A third track is requested while the fade to B still runs: the fade
    // restarts toward C (the loop swaps in C's decoder as the secondary).
    assert!(w.should_crossfade(&"c.mp3".to_string()));
    w.begin_crossfade("c.mp3".to_string(), &meta(30000, 44100, 2), 5000);
    assert!(w.primary && w.secondary, "still exactly two decoders");
    assert!(matches!(w.crossfade, CrossfadeState::Fading { start_ms: 5000, duration_ms: 3000 }));
    assert_eq!(w.state.current_file, Some("c.mp3".to_string()));
    assert_eq!(w.state.duration_ms, 30000);
}

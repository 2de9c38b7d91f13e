use playback_bridge::audio::PlaybackEvent;
use playback_bridge::control::{
    control_command, intent_for_key, EngineCall, EngineState, EngineWatch, Intent, Key,
};

#[test]
fn keys_map_to_intents() {
    assert_eq!(intent_for_key(Key::Escape), Some(Intent::Close));
    assert_eq!(intent_for_key(Key::Space), Some(Intent::TogglePause));
    assert_eq!(intent_for_key(Key::Z), Some(Intent::Restart));
    assert_eq!(intent_for_key(Key::Return), Some(Intent::SeekToStart));
    assert_eq!(intent_for_key(Key::Right), Some(Intent::SeekForward));
    assert_eq!(intent_for_key(Key::Left), Some(Intent::SeekBackward));
    assert_eq!(intent_for_key(Key::Other), None);
}

#[test]
fn toggle_pauses_playing_engine_and_resumes_paused_one() {
    let c = control_command(Intent::TogglePause, true, 1_000);
    assert_eq!(c.engine, EngineCall::SetPause(true));
    assert_eq!(c.audio, Some(PlaybackEvent::Pause { pts: 1_000 }));
    assert!(!c.close);
    let c = control_command(Intent::TogglePause, false, 2_000);
    assert_eq!(c.engine, EngineCall::SetPause(false));
    assert_eq!(c.audio, Some(PlaybackEvent::Resume { pts: 2_000 }));
}

#[test]
fn seeks_flush_audio() {
    let c = control_command(Intent::SeekToStart, true, 5);
    assert_eq!(c.engine, EngineCall::SeekToStart);
    assert_eq!(c.audio, Some(PlaybackEvent::Flush { pts: 5 }));
    let c = control_command(Intent::SeekForward, true, 6);
    assert_eq!(c.engine, EngineCall::SeekRelative(1));
    assert_eq!(c.audio, Some(PlaybackEvent::Flush { pts: 6 }));
    let c = control_command(Intent::SeekBackward, false, 7);
    assert_eq!(c.engine, EngineCall::SeekRelative(-1));
    assert_eq!(c.audio, Some(PlaybackEvent::Flush { pts: 7 }));
}

#[test]
fn restart_and_close() {
    let c = control_command(Intent::Restart, true, 0);
    assert_eq!(c.engine, EngineCall::StopThenPlay);
    assert_eq!(c.audio, None);
    assert!(!c.close);
    let c = control_command(Intent::Close, true, 0);
    assert_eq!(c.engine, EngineCall::Nothing);
    assert_eq!(c.audio, None);
    assert!(c.close);
}

#[test]
fn end_of_stream_is_reported_once() {
    let mut w = EngineWatch::new();
    assert!(!w.observe(EngineState::Playing));
    assert!(!w.observe(EngineState::Paused));
    assert!(!w.is_ended());
    assert!(w.observe(EngineState::Error));
    assert!(w.is_ended());
    assert!(!w.observe(EngineState::Ended));
    assert!(!w.observe(EngineState::Error));
}

#[test]
fn ended_state_is_terminal() {
    let mut w = EngineWatch::new();
    assert!(w.observe(EngineState::Ended));
}

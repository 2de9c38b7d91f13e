use playback_bridge::audio::{
    start_needed, AudioFormat, AudioPlan, AudioStreamSink, BufferSource, PlaybackEvent, SinkState,
    Submission,
};

fn stereo() -> AudioStreamSink {
    AudioStreamSink::new(AudioFormat { rate: 44100, channels: 2 })
}


#[test]
fn first_packet_allocates_second_reuses() {
    let mut sink = stereo();
    let first = sink.play(0, 1024, 0).unwrap();
    assert_eq!(
        first,
        Submission { buffer: BufferSource::Allocate(0), values: 2048 }
    );
    let second = sink.play(23_219, 1024, 1).unwrap();
    assert_eq!(
        second,
        Submission { buffer: BufferSource::Reuse(0), values: 2048 }
    );
    assert_eq!(sink.queued_buffers(), &[0][..]);
    assert_eq!(sink.state(), SinkState::Playing);
    assert_eq!(sink.current_pts(), Some(23_219));
}

#[test]
fn packets_allocate_until_one_is_processed() {
    let mut sink = stereo();
    sink.play(0, 10, 0).unwrap();
    let s = sink.play(1, 10, 0).unwrap();
    assert_eq!(s.buffer, BufferSource::Allocate(1));
    let s = sink.play(2, 10, 2).unwrap();
    assert_eq!(s.buffer, BufferSource::Reuse(0));
    assert_eq!(sink.queued_buffers(), &[1, 0][..]);
    let s = sink.play(3, 10, 1).unwrap();
    assert_eq!(s.buffer, BufferSource::Reuse(1));
    assert_eq!(sink.queued_buffers(), &[0, 1][..]);
}

#[test]
fn pause_then_resume_on_empty_queue_drains_nothing() {
    let mut sink = stereo();
    let paused = sink.pause(500_000);
    assert!(paused.is_empty());
    assert_eq!(sink.state(), SinkState::Idle);
    let resumed = sink.resume(500_000);
    assert!(resumed.is_empty());
    assert_eq!(sink.state(), SinkState::Idle);
    assert_eq!(sink.flush_marker(), Some(500_000));
    let s = sink.play(500_000, 1024, 0).unwrap();
    assert_eq!(s.buffer, BufferSource::Allocate(0));
}

#[test]
fn pause_resume_play_keeps_only_the_new_buffer() {
    let mut sink = stereo();
    sink.play(0, 1024, 0).unwrap();
    sink.play(1, 1024, 0).unwrap();
    sink.play(2, 1024, 0).unwrap();
    assert_eq!(sink.pause(3), vec![0, 1, 2]);
    assert!(sink.resume(3).is_empty());
    let s = sink.play(4, 1024, 0).unwrap();
    assert_eq!(s.buffer, BufferSource::Allocate(3));
    assert_eq!(sink.queued_buffers(), &[3][..]);
}

#[test]
fn flush_empties_the_queue() {
    let mut sink = stereo();
    for i in 0..5 {
        sink.play(i, 512, 0).unwrap();
    }
    assert_eq!(sink.queue_depth(), 5);
    let dropped = sink.flush(99);
    assert_eq!(dropped, vec![0, 1, 2, 3, 4]);
    assert_eq!(sink.queue_depth(), 0);
    assert_eq!(sink.state(), SinkState::Idle);
    assert_eq!(sink.flush_marker(), Some(99));
    assert_eq!(sink.flush(100).len(), 0);
    assert_eq!(sink.queue_depth(), 0);
}

#[test]
fn pause_resume_and_flush_recover_alike() {
    let mut a = stereo();
    let mut b = stereo();
    let mut c = stereo();
    for sink in [&mut a, &mut b, &mut c] {
        sink.play(0, 64, 0).unwrap();
        sink.play(1, 64, 0).unwrap();
    }
    let da = a.pause(42);
    let db = b.resume(42);
    let dc = c.flush(42);
    assert_eq!(da, vec![0, 1]);
    assert_eq!(da, db);
    assert_eq!(db, dc);
    for sink in [&a, &b, &c] {
        assert_eq!(sink.state(), SinkState::Idle);
        assert_eq!(sink.queue_depth(), 0);
        assert_eq!(sink.flush_marker(), Some(42));
        assert_eq!(sink.current_pts(), Some(42));
    }
}

#[test]
fn pause_resume_then_several_packets_queue_only_fresh_buffers() {
    let mut sink = stereo();
    sink.play(0, 16, 0).unwrap();
    sink.play(1, 16, 0).unwrap();
    sink.pause(2);
    sink.resume(2);
    sink.play(3, 16, 0).unwrap();
    sink.play(4, 16, 0).unwrap();
    sink.play(5, 16, 1).unwrap();
    assert_eq!(sink.queued_buffers(), &[3, 2][..]);
}

#[test]
fn voice_started_only_when_not_playing() {
    assert!(start_needed(false));
    assert!(!start_needed(true));
}

#[test]
fn flush_keeps_idle_state() {
    let mut sink = stereo();
    assert_eq!(sink.state(), SinkState::Idle);
    assert!(sink.flush(7).is_empty());
    assert_eq!(sink.state(), SinkState::Idle);
}

#[test]
fn handle_dispatches_events() {
    let mut sink = AudioStreamSink::new(AudioFormat { rate: 48000, channels: 1 });
    match sink.handle(PlaybackEvent::Play { pts: 10, frames: 256 }, 0) {
        Ok(AudioPlan::Submit(s)) => {
            assert_eq!(s.buffer, BufferSource::Allocate(0));
            assert_eq!(s.values, 256);
        }
        _ => panic!("expected a submission"),
    }
    match sink.handle(PlaybackEvent::Drain, 0) {
        Ok(AudioPlan::Nothing) => {}
        _ => panic!("drain does nothing"),
    }
    assert_eq!(sink.queue_depth(), 1);
    match sink.handle(PlaybackEvent::Flush { pts: 20 }, 0) {
        Ok(AudioPlan::Restart(d)) => assert_eq!(d, vec![0]),
        _ => panic!("flush restarts"),
    }
    match sink.handle(PlaybackEvent::Pause { pts: 30 }, 0) {
        Ok(AudioPlan::Restart(d)) => assert!(d.is_empty()),
        _ => panic!("pause restarts"),
    }
    assert_eq!(sink.state(), SinkState::Idle);
    match sink.handle(PlaybackEvent::Resume { pts: 40 }, 0) {
        Ok(AudioPlan::Restart(d)) => assert!(d.is_empty()),
        _ => panic!("resume restarts"),
    }
    assert_eq!(sink.state(), SinkState::Idle);
    assert_eq!(sink.flush_marker(), Some(40));
    assert_eq!(sink.format(), AudioFormat { rate: 48000, channels: 1 });
}

#[test]
fn drain_changes_nothing() {
    let mut sink = stereo();
    sink.play(5, 8, 0).unwrap();
    sink.drain();
    assert_eq!(sink.queued_buffers(), &[0][..]);
    assert_eq!(sink.current_pts(), Some(5));
    assert_eq!(sink.flush_marker(), None);
}

use playback_bridge::clock::{PlaybackClock, TickOutcome, DEFAULT_TARGET_FPS};

#[test]
fn sixty_hz_interval() {
    let clock = PlaybackClock::new(DEFAULT_TARGET_FPS);
    assert_eq!(clock.frame_interval_ms(), 16);
}

#[test]
fn waits_for_the_rest_of_the_interval() {
    let clock = PlaybackClock::new(60);
    assert_eq!(clock.wait_millis(0), 16);
    assert_eq!(clock.wait_millis(6), 10);
    assert_eq!(clock.wait_millis(15), 1);
}

#[test]
fn overrun_gives_zero_wait() {
    let clock = PlaybackClock::new(60);
    assert_eq!(clock.wait_millis(16), 0);
    assert_eq!(clock.wait_millis(40), 0);
    assert_eq!(clock.wait_millis(u64::MAX), 0);
    assert_eq!(clock.end_tick(100), TickOutcome::WaitMillis(0));
}

#[test]
fn close_request_ends_the_loop() {
    let mut clock = PlaybackClock::new(30);
    assert_eq!(clock.end_tick(3), TickOutcome::WaitMillis(30));
    assert!(!clock.is_closed());
    clock.request_close();
    assert!(clock.is_closed());
    assert_eq!(clock.end_tick(3), TickOutcome::Exit);
}

#[test]
fn rate_above_one_khz_never_waits() {
    let clock = PlaybackClock::new(2000);
    assert_eq!(clock.frame_interval_ms(), 0);
    assert_eq!(clock.wait_millis(0), 0);
}

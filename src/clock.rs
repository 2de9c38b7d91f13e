//! The playback clock: paces the cooperative render loop to a target rate.
use vstd::prelude::*;

verus! {

pub const MILLIS_PER_SECOND: u64 = 1000;

/// The nominal redraw rate.
pub const DEFAULT_TARGET_FPS: u64 = 60;

/// How long to sleep after a tick whose work took `elapsed` milliseconds,
/// with ticks `interval` milliseconds apart: the rest of the interval, or
/// nothing when the work overran it (no catch-up).
pub open spec fn wait_after(interval: u64, elapsed: u64) -> int {
    if elapsed < interval {
        interval - elapsed
    } else {
        0
    }
}

/// What the loop does once a tick's work is done.
#[derive(PartialEq, Eq, Structural, Clone, Copy, Debug)]
pub enum TickOutcome {
    /// Leave the loop: a close was requested.
    Exit,
    /// Sleep this many milliseconds, then run the next tick.
    WaitMillis(u64),
}

/// Single-threaded scheduler of the render loop.
pub struct PlaybackClock {
    interval_ms: u64,
    closed: bool,
}

impl PlaybackClock {
    pub closed spec fn interval(&self) -> u64 {
        self.interval_ms
    }

    pub closed spec fn closed(&self) -> bool {
        self.closed
    }

    /// A running clock with ticks `1000 / target_fps` milliseconds apart.
    pub fn new(target_fps: u64) -> (c: PlaybackClock)
        requires
            target_fps > 0,
        ensures
            c.interval() == MILLIS_PER_SECOND / target_fps,
            !c.closed(),
    {
        PlaybackClock { interval_ms: MILLIS_PER_SECOND / target_fps, closed: false }
    }

    pub fn frame_interval_ms(&self) -> (r: u64)
        ensures
            r == self.interval(),
    {
        self.interval_ms
    }

    pub fn is_closed(&self) -> (r: bool)
        ensures
            r == self.closed(),
    {
        self.closed
    }

    /// A close was requested: the loop ends at the end of this tick.
    pub fn request_close(&mut self)
        ensures
            final(self).closed(),
            final(self).interval() == old(self).interval(),
    {
        self.closed = true;
    }

    /// The wait after a tick that took `elapsed_ms`. It is never negative,
    /// and zero exactly when the work took the whole interval or longer.
    pub fn wait_millis(&self, elapsed_ms: u64) -> (r: u64)
        ensures
            r == wait_after(self.interval(), elapsed_ms),
            r == 0 <==> elapsed_ms >= self.interval(),
            elapsed_ms < self.interval() ==> elapsed_ms + r == self.interval(),
    {
        if elapsed_ms < self.interval_ms {
            self.interval_ms - elapsed_ms
        } else {
            0
        }
    }

    /// Ends a tick that took `elapsed_ms`: exit once a close was requested,
    /// else wait out the rest of the interval.
    pub fn end_tick(&self, elapsed_ms: u64) -> (r: TickOutcome)
        ensures
            self.closed() ==> r == TickOutcome::Exit,
            !self.closed() ==> r == TickOutcome::WaitMillis(
                wait_after(self.interval(), elapsed_ms) as u64,
            ),
    {
        if self.closed {
            TickOutcome::Exit
        } else {
            TickOutcome::WaitMillis(self.wait_millis(elapsed_ms))
        }
    }
}

} // verus!

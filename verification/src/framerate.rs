//! Rolling frame-rate window: counts frames processed since a reset point
//! and reports instantaneous throughput. The window holds at most ten
//! frames: the call that would bring the count to ten first resets the
//! window to the current time, then counts itself (reset-then-increment),
//! so the counter never exceeds nine between calls.

use vstd::prelude::*;

verus! {

/// Number of frames after which the window resets.
pub const WINDOW_SIZE: u32 = 10;

/// Rolling window state: frames counted since the window start, and the
/// window start time in milliseconds.
#[derive(Clone, Copy, Debug, PartialEq, Eq, Structural)]
pub struct FrameRateWindow {
    pub frames_in_window: u32,
    pub window_start_ms: u64,
}

/// An instantaneous throughput report: frames counted in the current
/// window and the milliseconds elapsed since the window start. The rate is
/// their quotient; it is informational only, so the division is left to
/// the display side.
#[derive(Clone, Copy, Debug, PartialEq, Eq, Structural)]
pub struct RateReport {
    pub frames: u32,
    pub elapsed_ms: u64,
}

impl FrameRateWindow {
    /// The counter stays strictly below the window size between calls.
    pub open spec fn wf(self) -> bool {
        self.frames_in_window < WINDOW_SIZE
    }

    /// A window with nothing counted, started at the given time.
    pub open spec fn spec_fresh(now_ms: u64) -> FrameRateWindow {
        FrameRateWindow { frames_in_window: 0, window_start_ms: now_ms }
    }

    /// One call on the window: if the count would reach the window size,
    /// reset the window to the current time first, then count this frame.
    pub open spec fn spec_tick(self, now_ms: u64) -> FrameRateWindow {
        if self.frames_in_window >= WINDOW_SIZE - 1 {
            FrameRateWindow { frames_in_window: 1, window_start_ms: now_ms }
        } else {
            FrameRateWindow {
                frames_in_window: (self.frames_in_window + 1) as u32,
                window_start_ms: self.window_start_ms,
            }
        }
    }

    /// A window started now, with nothing counted yet.
    pub fn new(now_ms: u64) -> (w: FrameRateWindow)
        ensures
            w == FrameRateWindow::spec_fresh(now_ms),
            w.wf(),
    {
        FrameRateWindow { frames_in_window: 0, window_start_ms: now_ms }
    }

    /// Forget everything counted so far and restart the window now.
    pub fn reset(&mut self, now_ms: u64)
        ensures
            *final(self) == FrameRateWindow::spec_fresh(now_ms),
            final(self).wf(),
    {
        self.frames_in_window = 0;
        self.window_start_ms = now_ms;
    }

    /// Count one processed frame, resetting first if this call would bring
    /// the count to the window size.
    pub fn tick(&mut self, now_ms: u64)
        ensures
            *final(self) == old(self).spec_tick(now_ms),
            final(self).wf(),
    {
        if self.frames_in_window >= WINDOW_SIZE - 1 {
            self.frames_in_window = 1;
            self.window_start_ms = now_ms;
        } else {
            self.frames_in_window = self.frames_in_window + 1;
        }
    }

    /// Report the frames counted in the current window and the time
    /// elapsed since the window start (zero if the clock reads earlier
    /// than the window start).
    pub fn report(&self, now_ms: u64) -> (r: RateReport)
        ensures
            r.frames == self.frames_in_window,
            r.elapsed_ms == if now_ms >= self.window_start_ms {
                now_ms - self.window_start_ms
            } else {
                0
            },
    {
        let elapsed: u64 = if now_ms >= self.window_start_ms {
            now_ms - self.window_start_ms
        } else {
            0
        };
        RateReport { frames: self.frames_in_window, elapsed_ms: elapsed }
    }
}

/// The window after a sequence of calls, one at each listed time, applied
/// in order.
pub open spec fn spec_ticks(w: FrameRateWindow, times: Seq<u64>) -> FrameRateWindow
    decreases times.len(),
{
    if times.len() == 0 {
        w
    } else {
        spec_ticks(w, times.drop_last()).spec_tick(times.last())
    }
}

/// After the first `i` of the listed calls on a fresh window, the counter
/// reads exactly `i` and the window start is unchanged, as long as `i` is
/// at most nine.
proof fn lemma_prefix_counts(w: FrameRateWindow, times: Seq<u64>, i: int)
    requires
        w.frames_in_window == 0,
        0 <= i <= WINDOW_SIZE - 1,
        i <= times.len(),
    ensures
        spec_ticks(w, times.take(i)).frames_in_window == i,
        spec_ticks(w, times.take(i)).window_start_ms == w.window_start_ms,
    decreases i,
{
    if i == 0 {
        assert(times.take(0).len() == 0);
    } else {
        lemma_prefix_counts(w, times, i - 1);
        assert(times.take(i).drop_last() =~= times.take(i - 1));
        assert(times.take(i).last() == times[i - 1]);
    }
}

/// Law of the ten-call window: starting from a window with nothing
/// counted, ten calls with no intervening reset leave the counter at one
/// (the tenth call resets the window to its own time and then counts
/// itself), and before that the counter climbs one per call and never
/// exceeds nine.
pub proof fn lemma_window_of_ten(w: FrameRateWindow, times: Seq<u64>)
    requires
        w.frames_in_window == 0,
        times.len() == WINDOW_SIZE,
    ensures
        spec_ticks(w, times).frames_in_window == 1,
        spec_ticks(w, times).window_start_ms == times.last(),
        forall|i: int| 0 <= i < WINDOW_SIZE ==> #[trigger] spec_ticks(
            w,
            times.take(i),
        ).frames_in_window == i,
        forall|i: int| 0 <= i < WINDOW_SIZE ==> #[trigger] spec_ticks(
            w,
            times.take(i),
        ).frames_in_window <= WINDOW_SIZE - 1,
{
    assert forall|i: int| 0 <= i < WINDOW_SIZE implies #[trigger] spec_ticks(
        w,
        times.take(i),
    ).frames_in_window == i by {
        lemma_prefix_counts(w, times, i);
    }
    lemma_prefix_counts(w, times, WINDOW_SIZE - 1);
    assert(times.take(WINDOW_SIZE as int) =~= times);
    assert(times.drop_last() =~= times.take(WINDOW_SIZE - 1));
}

} // verus!

use tagloop::framerate::{FrameRateWindow, WINDOW_SIZE};

#[test]
fn window_size_is_ten() {
    assert_eq!(WINDOW_SIZE, 10);
}

#[test]
fn ten_calls_reset_then_count() {
    let mut w = FrameRateWindow::new(100);
    for i in 1..=9u32 {
        w.tick(100 + i as u64);
        // The counter climbs one per call and never exceeds nine.
        assert_eq!(w.frames_in_window, i);
        assert!(w.frames_in_window <= 9);
        assert_eq!(w.window_start_ms, 100);
    }
    // The tenth call resets the window to its own time, then counts
    // itself: the counter reads one, not zero.
    w.tick(110);
    assert_eq!(w.frames_in_window, 1);
    assert_eq!(w.window_start_ms, 110);
}

#[test]
fn reset_clears_counter_and_moves_start() {
    let mut w = FrameRateWindow::new(0);
    w.tick(1);
    w.tick(2);
    w.reset(50);
    assert_eq!(w.frames_in_window, 0);
    assert_eq!(w.window_start_ms, 50);
}

#[test]
fn report_frames_and_elapsed() {
    let mut w = FrameRateWindow::new(200);
    w.tick(205);
    w.tick(210);
    let r = w.report(260);
    assert_eq!(r.frames, 2);
    assert_eq!(r.elapsed_ms, 60);
}

#[test]
fn report_clock_before_window_start() {
    let w = FrameRateWindow::new(500);
    let r = w.report(400);
    assert_eq!(r.frames, 0);
    assert_eq!(r.elapsed_ms, 0);
}

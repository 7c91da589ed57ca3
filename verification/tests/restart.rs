use tauri_python_sidecar::restart::{RestartTracker, RestartWindow, RESTART_WINDOW_NANOS};

#[test]
fn test_restart_tracker_backoff_then_gives_up() {
    let mut tracker = RestartTracker::default();
    assert_eq!(tracker.next_delay(), Some(1));
    assert_eq!(tracker.next_delay(), Some(2));
    assert_eq!(tracker.next_delay(), Some(5));
    assert_eq!(tracker.next_delay(), Some(5));
    assert_eq!(tracker.next_delay(), Some(5));
    assert_eq!(tracker.next_delay(), None, "cap exhausted within window");
}

#[test]
fn ladder_is_climbed_once_per_window() {
    let mut window = RestartWindow::new(7);
    let delays: Vec<Option<u64>> = (0..7).map(|_| window.next_delay_at(8)).collect();
    assert_eq!(delays, vec![Some(1), Some(2), Some(5), Some(5), Some(5), None, None]);
    assert_eq!(window.attempts, 5);
    assert_eq!(window.start, 7);
}

#[test]
fn window_lasts_exactly_five_minutes() {
    assert_eq!(RESTART_WINDOW_NANOS, 300 * 1_000_000_000);
    let mut window = RestartWindow::new(0);
    for _ in 0..5 {
        window.take_attempt();
    }
    assert_eq!(window.next_delay_at(RESTART_WINDOW_NANOS), None);
    assert_eq!(window.next_delay_at(RESTART_WINDOW_NANOS + 1), Some(1));
    assert_eq!(window.attempts, 1);
    assert_eq!(window.start, RESTART_WINDOW_NANOS + 1);
}

#[test]
fn clock_before_the_window_does_not_expire_it() {
    let mut window = RestartWindow::new(1000);
    window.take_attempt();
    assert_eq!(window.next_delay_at(0), Some(2));
}

#[test]
fn health_resets_the_ladder() {
    let mut window = RestartWindow::new(0);
    assert_eq!(window.next_delay_at(10), Some(1));
    assert_eq!(window.next_delay_at(20), Some(2));
    assert_eq!(window.next_delay_at(20 + RESTART_WINDOW_NANOS + 1), Some(1));
}

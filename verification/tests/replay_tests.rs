use jukebox::replay::{ReplayWindow, REPLAY_CAPACITY};

#[test]
fn empty_window_contains_nothing() {
    let window = ReplayWindow::new();
    assert_eq!(window.len(), 0);
    assert!(!window.contains(0));
    assert!(!window.contains(42));
}

#[test]
fn window_remembers_everything_below_capacity() {
    let mut window = ReplayWindow::new();
    for id in 0..10i32 {
        window.record(id);
    }
    assert_eq!(window.len(), 10);
    for id in 0..10i32 {
        assert!(window.contains(id));
    }
    assert!(!window.contains(10));
}

#[test]
fn window_holds_exactly_the_most_recent_capacity_ids() {
    let mut window = ReplayWindow::new();
    for id in 0..20i32 {
        window.record(id);
    }
    assert_eq!(window.len(), REPLAY_CAPACITY);
    // The five oldest ids were evicted, first in first out.
    for id in 0..5i32 {
        assert!(!window.contains(id));
    }
    for id in 5..20i32 {
        assert!(window.contains(id));
    }
}

#[test]
fn window_evicts_one_per_record_once_full() {
    let mut window = ReplayWindow::new();
    for id in 0..(REPLAY_CAPACITY as i32) {
        window.record(id);
    }
    assert!(window.contains(0));
    window.record(100);
    assert!(!window.contains(0));
    assert!(window.contains(1));
    assert!(window.contains(100));
    assert_eq!(window.len(), REPLAY_CAPACITY);
}

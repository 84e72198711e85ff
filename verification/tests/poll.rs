use sequencer_core::poll::poll_iters;

#[test]
fn test_poll_iters() {
    assert_eq!(poll_iters(100, 0), 1);
    assert_eq!(poll_iters(100, 100), 1);
    assert_eq!(poll_iters(100, 101), 2);
    assert_eq!(poll_iters(100, 200), 2);
    assert_eq!(poll_iters(100, 201), 3);
}

#[test]
fn poll_iters_single_tick_window() {
    assert_eq!(poll_iters(1, 0), 1);
    assert_eq!(poll_iters(1, 7), 7);
    assert_eq!(poll_iters(250, 1), 1);
}

#[test]
fn poll_iters_largest_window() {
    assert_eq!(poll_iters(1, u64::MAX), u64::MAX);
    assert_eq!(poll_iters(u64::MAX, u64::MAX), 1);
    assert_eq!(poll_iters(u64::MAX, 1), 1);
}

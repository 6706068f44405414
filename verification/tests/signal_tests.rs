use ogp_tui::signal::RedrawSignal;

#[test]
fn a_fresh_signal_is_pending_once() {
    let mut signal = RedrawSignal::new();
    assert!(signal.consume());
    assert!(!signal.consume());
}

#[test]
fn notifications_coalesce_into_one_wakeup() {
    let mut signal = RedrawSignal::new();
    assert!(signal.consume());
    signal.notify();
    signal.notify();
    signal.notify();
    assert!(signal.consume());
    assert!(!signal.consume());
}

#[test]
fn notify_after_consume_pends_again() {
    let mut signal = RedrawSignal::new();
    assert!(signal.consume());
    signal.notify();
    assert!(signal.consume());
    assert!(!signal.consume());
}

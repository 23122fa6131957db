use feed_bridge::cancel::CancelCell;

#[test]
fn tokens_are_fresh_and_increasing() {
    let mut cell: CancelCell<&str> = CancelCell::new();
    assert!(!cell.is_armed());
    assert!(!cell.is_exhausted());
    assert_eq!(cell.arm("a"), 0);
    assert!(cell.disarm(0));
    assert_eq!(cell.arm("b"), 1);
    assert!(cell.is_armed());
}

#[test]
fn stale_trigger_is_a_no_op() {
    let mut cell: CancelCell<&str> = CancelCell::new();
    let first = cell.arm("first");
    assert!(cell.disarm(first));
    let second = cell.arm("second");
    assert_eq!(cell.trigger_token(first), None);
    assert!(cell.is_armed());
    assert_eq!(cell.trigger_token(second), Some("second"));
    assert!(!cell.is_armed());
}

#[test]
fn stale_disarm_leaves_new_token() {
    let mut cell: CancelCell<&str> = CancelCell::new();
    let first = cell.arm("first");
    assert_eq!(cell.close(), Some("first"));
    assert!(cell.is_closing());
    cell.reopen();
    assert!(!cell.is_closing());
    let second = cell.arm("second");
    assert!(!cell.disarm(first));
    assert!(cell.is_armed());
    assert!(cell.disarm(second));
    assert!(!cell.is_armed());
}

#[test]
fn trigger_without_token_takes_nothing() {
    let mut cell: CancelCell<&str> = CancelCell::new();
    assert_eq!(cell.trigger_token(0), None);
    assert!(!cell.is_closing());
    assert_eq!(cell.close(), None);
    assert!(!cell.disarm(0));
}

use tilia::history::{channel, RecvOutcome};

fn rec(s: &str) -> Vec<u8> {
    s.as_bytes().to_vec()
}

fn expect_record(outcome: RecvOutcome, want: &str) {
    match outcome {
        RecvOutcome::Record(v) => assert_eq!(v, rec(want)),
        RecvOutcome::Lagged(n) => panic!("expected record, got lagged by {n}"),
        RecvOutcome::Empty => panic!("expected record, got empty"),
    }
}

#[test]
fn buffer_keeps_most_recent_window() {
    // Capacity 3, four sends: a late subscriber replays exactly the most
    // recent min(4, 3) records, oldest to newest.
    let mut s = channel(3);
    s.send(rec("a"));
    s.send(rec("b"));
    s.send(rec("c"));
    s.send(rec("d"));
    let mut rx = s.subscribe();
    expect_record(rx.recv(&s), "b");
    expect_record(rx.recv(&s), "c");
    expect_record(rx.recv(&s), "d");
    assert!(matches!(rx.recv(&s), RecvOutcome::Empty));
}

#[test]
fn buffer_below_capacity_keeps_everything() {
    let mut s = channel(5);
    s.send(rec("a"));
    s.send(rec("b"));
    let mut rx = s.subscribe();
    expect_record(rx.recv(&s), "a");
    expect_record(rx.recv(&s), "b");
    assert!(matches!(rx.recv(&s), RecvOutcome::Empty));
}

#[test]
fn early_subscriber_receives_every_record_in_order() {
    // Subscribed before any send and never lagging: every record arrives
    // exactly once, in send order.
    let mut s = channel(16);
    let mut rx = s.subscribe();
    assert!(matches!(rx.recv(&s), RecvOutcome::Empty));
    s.send(rec("one"));
    s.send(rec("two"));
    s.send(rec("three"));
    expect_record(rx.recv(&s), "one");
    expect_record(rx.recv(&s), "two");
    expect_record(rx.recv(&s), "three");
    assert!(matches!(rx.recv(&s), RecvOutcome::Empty));
}

#[test]
fn late_subscriber_gets_snapshot_then_live_without_duplication() {
    // Two sends (under capacity), then subscribe: the snapshot replays both,
    // and records sent afterwards follow, nothing twice.
    let mut s = channel(4);
    s.send(rec("a"));
    s.send(rec("b"));
    let mut rx = s.subscribe();
    s.send(rec("c"));
    expect_record(rx.recv(&s), "a");
    expect_record(rx.recv(&s), "b");
    expect_record(rx.recv(&s), "c");
    assert!(matches!(rx.recv(&s), RecvOutcome::Empty));
}

#[test]
fn record_sent_after_subscription_is_live_not_snapshot() {
    let mut s = channel(4);
    s.send(rec("a"));
    let mut rx = s.subscribe();
    s.send(rec("b"));
    // "a" was buffered at subscribe time, "b" came later; each exactly once.
    expect_record(rx.recv(&s), "a");
    expect_record(rx.recv(&s), "b");
    assert!(matches!(rx.recv(&s), RecvOutcome::Empty));
}

#[test]
fn lagging_subscriber_skips_and_resumes_live() {
    // Capacity 2: a subscriber that sleeps through three sends has lost the
    // first record; it is told how many it missed and resumes with the
    // oldest record still stored.
    let mut s = channel(2);
    let mut rx = s.subscribe();
    s.send(rec("a"));
    s.send(rec("b"));
    s.send(rec("c"));
    match rx.recv(&s) {
        RecvOutcome::Lagged(n) => assert_eq!(n, 1),
        RecvOutcome::Record(v) => panic!("expected lag, got record {v:?}"),
        RecvOutcome::Empty => panic!("expected lag, got empty"),
    }
    expect_record(rx.recv(&s), "b");
    expect_record(rx.recv(&s), "c");
    assert!(matches!(rx.recv(&s), RecvOutcome::Empty));
}

#[test]
fn send_reports_subscriber_count_and_never_fails() {
    let mut s = channel(3);
    assert_eq!(s.send(rec("no one listens")), 0);
    let _rx1 = s.subscribe();
    assert_eq!(s.send(rec("one listener")), 1);
    let _rx2 = s.subscribe();
    assert_eq!(s.send(rec("two listeners")), 2);
    s.unsubscribe();
    assert_eq!(s.send(rec("one again")), 1);
}

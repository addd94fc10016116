use tilia::fanout::{FanoutService, ForwardAction};
use tilia::history::channel;

fn rec(s: &str) -> Vec<u8> {
    s.as_bytes().to_vec()
}

fn expect_write(a: ForwardAction, want: &str) {
    match a {
        ForwardAction::Write(v) => assert_eq!(v, rec(want)),
        ForwardAction::SkippedAhead(n) => panic!("expected write, got skip of {n}"),
        ForwardAction::Idle => panic!("expected write, got idle"),
        ForwardAction::Stopped => panic!("expected write, got stopped"),
    }
}

#[test]
fn two_viewers_both_receive_everything_after_attachment() {
    let mut s = channel(16);
    let mut f = FanoutService::new();

    s.send(rec("early"));
    let v0 = f.accept(&mut s);
    s.send(rec("mid"));
    let v1 = f.accept(&mut s);
    s.send(rec("late"));

    // Viewer 0 replays its snapshot and then everything sent after it
    // attached.
    expect_write(f.next_action(&s, v0), "early");
    expect_write(f.next_action(&s, v0), "mid");
    expect_write(f.next_action(&s, v0), "late");
    assert!(matches!(f.next_action(&s, v0), ForwardAction::Idle));

    // Viewer 1 likewise, from its own attachment point.
    expect_write(f.next_action(&s, v1), "early");
    expect_write(f.next_action(&s, v1), "mid");
    expect_write(f.next_action(&s, v1), "late");
    assert!(matches!(f.next_action(&s, v1), ForwardAction::Idle));
}

#[test]
fn closing_one_connection_leaves_the_other_flowing() {
    let mut s = channel(16);
    let mut f = FanoutService::new();
    let v0 = f.accept(&mut s);
    let v1 = f.accept(&mut s);
    assert_eq!(s.send(rec("a")), 2);

    expect_write(f.next_action(&s, v0), "a");
    f.connection_closed(&mut s, v0);
    assert!(!f.viewer_is_active(v0));
    assert!(f.viewer_is_active(v1));
    assert!(matches!(f.next_action(&s, v0), ForwardAction::Stopped));

    // The surviving viewer still gets every record, before and after.
    s.send(rec("b"));
    expect_write(f.next_action(&s, v1), "a");
    expect_write(f.next_action(&s, v1), "b");
    assert!(matches!(f.next_action(&s, v1), ForwardAction::Idle));
}

#[test]
fn slow_viewer_is_told_it_skipped_ahead() {
    let mut s = channel(2);
    let mut f = FanoutService::new();
    let v = f.accept(&mut s);
    s.send(rec("1"));
    s.send(rec("2"));
    s.send(rec("3"));
    match f.next_action(&s, v) {
        ForwardAction::SkippedAhead(n) => assert_eq!(n, 1),
        other => panic!("expected skip, got {other:?}"),
    }
    expect_write(f.next_action(&s, v), "2");
    expect_write(f.next_action(&s, v), "3");
}

#[test]
fn cancellation_or_stream_end_stops_accepting_only() {
    let mut s = channel(4);
    let mut f = FanoutService::new();
    let v = f.accept(&mut s);
    assert!(f.is_accepting());
    f.stop_accepting();
    assert!(!f.is_accepting());
    // The attached viewer keeps flowing until its own task ends.
    s.send(rec("still flowing"));
    expect_write(f.next_action(&s, v), "still flowing");
    assert_eq!(f.viewers_len(), 1);
}

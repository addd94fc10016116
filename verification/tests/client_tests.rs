use tilia::client::{ClientPhase, ReconnectingClient};
use tilia::mailbox::Mailbox;

fn rec(s: &str) -> Vec<u8> {
    s.as_bytes().to_vec()
}

#[test]
fn two_failures_then_success_respects_backoff() {
    // A connector that fails twice and then succeeds: three attempts, each
    // retry no sooner than one backoff interval after the failure before it.
    let backoff = 5;
    let mut c = ReconnectingClient::new(backoff);

    assert!(c.should_attempt(0));
    c.begin_attempt(0);
    c.on_connect_result(0, false);

    // Too early at every instant before 0 + backoff.
    assert!(!c.should_attempt(1));
    assert!(!c.should_attempt(4));
    assert!(c.should_attempt(5));
    c.begin_attempt(5);
    c.on_connect_result(5, false);

    assert!(!c.should_attempt(9));
    assert!(c.should_attempt(10));
    c.begin_attempt(10);
    c.on_connect_result(10, true);

    assert_eq!(c.current_phase(), ClientPhase::Connected);
    assert_eq!(c.attempt_count(), 3);

    // Records read after success reach the mailbox in read order.
    let mut m = Mailbox::new(8);
    assert!(c.forward(&mut m, rec("first")));
    assert!(c.forward(&mut m, rec("second")));
    assert_eq!(m.try_recv(), Some(rec("first")));
    assert_eq!(m.try_recv(), Some(rec("second")));
    assert_eq!(m.try_recv(), None);
}

#[test]
fn no_attempt_while_connecting_or_connected() {
    let mut c = ReconnectingClient::new(1);
    c.begin_attempt(0);
    assert_eq!(c.current_phase(), ClientPhase::Connecting);
    assert!(!c.should_attempt(100));
    c.on_connect_result(100, true);
    assert_eq!(c.current_phase(), ClientPhase::Connected);
    assert!(!c.should_attempt(200));
}

#[test]
fn stream_error_allows_immediate_reconnect() {
    // Losing an established connection is not a failed attempt: the first
    // reconnect try may start at once.
    let mut c = ReconnectingClient::new(5);
    c.begin_attempt(0);
    c.on_connect_result(0, true);
    c.on_stream_error(7);
    assert_eq!(c.current_phase(), ClientPhase::Disconnected);
    assert!(c.should_attempt(7));
}

#[test]
fn full_mailbox_refuses_and_keeps_order() {
    // The backpressure point: a full mailbox refuses the record; once the
    // consumer drains, the same record goes through, order intact.
    let mut c = ReconnectingClient::new(1);
    c.begin_attempt(0);
    c.on_connect_result(0, true);
    let mut m = Mailbox::new(1);
    assert!(c.forward(&mut m, rec("a")));
    assert!(!c.forward(&mut m, rec("b")));
    assert_eq!(m.try_recv(), Some(rec("a")));
    assert!(c.forward(&mut m, rec("b")));
    assert_eq!(m.try_recv(), Some(rec("b")));
}

#[test]
fn mailbox_is_first_in_first_out() {
    let mut m = Mailbox::new(3);
    assert!(m.is_empty());
    assert!(m.try_send(rec("1")));
    assert!(m.try_send(rec("2")));
    assert!(m.try_send(rec("3")));
    assert!(!m.try_send(rec("4")));
    assert_eq!(m.len(), 3);
    assert_eq!(m.try_recv(), Some(rec("1")));
    assert_eq!(m.try_recv(), Some(rec("2")));
    assert_eq!(m.try_recv(), Some(rec("3")));
    assert_eq!(m.try_recv(), None);
}

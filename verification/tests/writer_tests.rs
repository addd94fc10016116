use tilia::history::RecvOutcome;
use tilia::lifecycle::LifecycleManager;
use tilia::writer::Writer;

fn rec(s: &str) -> Vec<u8> {
    s.as_bytes().to_vec()
}

#[test]
fn written_records_reach_the_replay_buffer() {
    let (mut w, _guard) = Writer::new(8);
    assert!(w.enabled());
    assert_eq!(w.write(rec("hello")), 5);
    assert_eq!(w.write(rec("world!")), 6);
    let buffer = w.buffer_mut();
    let mut rx = buffer.subscribe();
    match rx.recv(buffer) {
        RecvOutcome::Record(v) => assert_eq!(v, rec("hello")),
        _ => panic!("expected first record"),
    }
    match rx.recv(buffer) {
        RecvOutcome::Record(v) => assert_eq!(v, rec("world!")),
        _ => panic!("expected second record"),
    }
    assert!(matches!(rx.recv(buffer), RecvOutcome::Empty));
}

#[test]
fn disabled_writer_drops_quietly() {
    let (mut w, _guard) = Writer::disabled();
    assert!(!w.enabled());
    // The call still reports the record's length and never fails.
    assert_eq!(w.write(rec("dropped")), 7);
    w.flush();
}

#[test]
fn init_is_gated_and_retried_without_a_runtime() {
    let (w, _guard) = Writer::new(4);
    let mut lc = LifecycleManager::new();
    // No task executor yet: nothing starts, to be retried later.
    assert!(!w.init(&mut lc, false));
    assert!(!lc.is_started());
    // With one, the first call initializes...
    assert!(w.init(&mut lc, true));
    assert!(lc.is_started());
    // ...and every later call finds it already done.
    assert!(w.init(&mut lc, true));
    assert!(w.init(&mut lc, false));
}

#[test]
fn guard_stop_twice_is_safe() {
    let (_w, mut guard) = Writer::new(4);
    let mut lc = LifecycleManager::new();
    lc.initialize();
    assert!(guard.stop(&mut lc).is_ok());
    assert!(guard.stop(&mut lc).is_ok());
    assert!(lc.shutdown_outcome().is_ok());
}

#[test]
fn writing_before_initialization_is_safe() {
    // Records submitted before the background work starts are buffered (or,
    // disabled, dropped) — never a panic, never a block.
    let (mut w, _guard) = Writer::new(4);
    assert_eq!(w.write(rec("early")), 5);
    let mut lc = LifecycleManager::new();
    assert!(w.init(&mut lc, true));
    let buffer = w.buffer_mut();
    let mut rx = buffer.subscribe();
    match rx.recv(buffer) {
        RecvOutcome::Record(v) => assert_eq!(v, rec("early")),
        _ => panic!("the early record should have been buffered"),
    }
}

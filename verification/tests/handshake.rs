use tokio_tungstenite::handshake::{HandshakeOutcome, MidHandshake};
use tokio_tungstenite::poll::Async;

type O = HandshakeOutcome<&'static str, u32, &'static str>;

#[test]
fn done_handshake_is_ready_once() {
    let mut h: MidHandshake<&str, u32, &str> = MidHandshake::new(O::Done("ws"));
    assert_eq!(h.poll(|_| panic!("not resumed")), Ok(Async::Ready("ws")));
    assert!(!h.is_pending());
}

#[test]
fn failed_handshake_reports_error() {
    let mut h: MidHandshake<&str, u32, &str> = MidHandshake::new(O::Failed("bad"));
    assert_eq!(h.poll(|_| panic!("not resumed")), Err("bad"));
    assert!(!h.is_pending());
}

#[test]
fn interrupted_handshake_is_resumed() {
    let mut h: MidHandshake<&str, u32, &str> = MidHandshake::new(O::Interrupted(1));
    assert_eq!(h.poll(|m| O::Interrupted(m + 1)), Ok(Async::NotReady));
    assert!(h.is_pending());
    assert_eq!(h.poll(|m| if m == 2 { O::Done("ok") } else { O::Failed("wrong") }), Ok(Async::Ready("ok")));
    assert!(!h.is_pending());
}

#[test]
fn interrupted_then_failed() {
    let mut h: MidHandshake<&str, u32, &str> = MidHandshake::new(O::Interrupted(1));
    assert_eq!(h.poll(|_| O::Failed("io")), Err("io"));
    assert!(!h.is_pending());
}

use tokio_tungstenite::auto_pong::{AutoPongExt, PollAction, PollEvent};
use tokio_tungstenite::message::Message;

fn is_pong(m: &Option<Message>, payload: &[u8]) -> bool {
    matches!(m, Some(Message::Pong(d)) if d.as_slice() == payload)
}

#[test]
fn ping_is_answered_with_its_payload() {
    let mut ap = 7u8.auto_pong();
    assert!(ap.take_pong().is_none());
    assert!(ap.on_message(Some(Message::Ping(vec![1, 2, 3]))).is_none());
    let pong = ap.take_pong();
    assert!(is_pong(&pong, &[1, 2, 3]));
    assert!(ap.take_pong().is_none());
    assert_eq!(*ap.get_ref(), 7);
}

#[test]
fn pongs_are_dropped_and_other_messages_pass() {
    let mut ap = ().auto_pong();
    assert!(ap.on_message(Some(Message::Pong(vec![9]))).is_none());
    assert!(ap.take_pong().is_none());
    match ap.on_message(Some(Message::Text("hi".to_string()))) {
        Some(Some(Message::Text(t))) => assert_eq!(t, "hi"),
        _ => panic!("text must pass through"),
    }
    match ap.on_message(Some(Message::Binary(vec![4]))) {
        Some(Some(Message::Binary(b))) => assert_eq!(b, vec![4]),
        _ => panic!("binary must pass through"),
    }
    assert!(matches!(ap.on_message(None), Some(None)));
}

#[test]
fn refused_pong_is_retried() {
    let mut ap = ().auto_pong();
    ap.on_message(Some(Message::Ping(vec![5])));
    let pong = ap.take_pong().unwrap();
    ap.pong_not_sent(pong);
    assert!(is_pong(&ap.take_pong(), &[5]));
}

#[test]
fn later_ping_replaces_pending_payload() {
    let mut ap = ().auto_pong();
    ap.on_message(Some(Message::Ping(vec![1])));
    ap.on_message(Some(Message::Ping(vec![2])));
    assert!(is_pong(&ap.take_pong(), &[2]));
}

#[test]
fn get_mut_reaches_the_stream() {
    let mut ap = vec![1u8].auto_pong();
    ap.get_mut().push(2);
    assert_eq!(ap.get_ref(), &vec![1, 2]);
}

#[test]
fn poll_steps_resend_a_refused_pong_before_polling() {
    let mut ap = ().auto_pong();
    assert!(matches!(ap.step(PollEvent::Polled), PollAction::PollInner));
    assert!(matches!(
        ap.step(PollEvent::Received(Some(Message::Ping(vec![7, 8])))),
        PollAction::SendPong(Message::Pong(ref d)) if d.as_slice() == [7, 8]
    ));
    assert!(matches!(ap.step(PollEvent::PongRefused(Message::Pong(vec![7, 8]))), PollAction::Flush));
    assert!(matches!(ap.step(PollEvent::Flushed), PollAction::PollInner));
    assert!(matches!(ap.step(PollEvent::InnerNotReady), PollAction::Wait));
    assert!(matches!(
        ap.step(PollEvent::Polled),
        PollAction::SendPong(Message::Pong(ref d)) if d.as_slice() == [7, 8]
    ));
    assert!(matches!(ap.step(PollEvent::PongAccepted), PollAction::Flush));
    assert!(matches!(ap.step(PollEvent::Flushed), PollAction::PollInner));
    match ap.step(PollEvent::Received(Some(Message::Text("x".to_string())))) {
        PollAction::Yield(Some(Message::Text(t))) => assert_eq!(t, "x"),
        _ => panic!("text must be yielded"),
    }
    assert!(matches!(ap.step(PollEvent::Received(Some(Message::Pong(vec![1])))), PollAction::PollInner));
    assert!(matches!(ap.step(PollEvent::Received(None)), PollAction::Yield(None)));
}

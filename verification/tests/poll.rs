use tokio_tungstenite::poll::{cvt, poll_next_message, to_async, to_start_send, Async, AsyncSink, WsFailure};

type F = WsFailure<&'static str, u32>;

#[test]
fn to_async_maps_results() {
    assert_eq!(to_async::<u8, &str, u32>(Ok(3)), Ok(Async::Ready(3)));
    assert_eq!(to_async::<u8, &str, u32>(Err(WsFailure::WouldBlock(1))), Ok(Async::NotReady));
    assert_eq!(to_async::<u8, &str, u32>(Err(WsFailure::Other(2))), Err(WsFailure::Other(2)));
    assert_eq!(
        to_async::<u8, &str, u32>(Err(WsFailure::ConnectionClosed(4))),
        Err(WsFailure::ConnectionClosed(4))
    );
}

#[test]
fn start_send_maps_results() {
    let ok: Result<(), F> = Ok(());
    assert_eq!(to_start_send(ok), Ok(AsyncSink::Ready));
    assert_eq!(to_start_send::<&str, u32>(Err(WsFailure::WouldBlock(1))), Ok(AsyncSink::Ready));
    assert_eq!(to_start_send::<&str, u32>(Err(WsFailure::SendQueueFull("hi"))), Ok(AsyncSink::NotReady("hi")));
    assert_eq!(to_start_send::<&str, u32>(Err(WsFailure::Other(7))), Err(WsFailure::Other(7)));
}

#[test]
fn cvt_maps_results() {
    assert_eq!(cvt::<u8, &str, u32>(Ok(1)), Async::Ready(Ok(1)));
    assert_eq!(cvt::<u8, &str, u32>(Err(WsFailure::WouldBlock(1))), Async::NotReady);
    assert_eq!(cvt::<u8, &str, u32>(Err(WsFailure::Other(9))), Async::Ready(Err(WsFailure::Other(9))));
}

#[test]
fn closed_connection_ends_the_stream() {
    assert_eq!(poll_next_message::<u8, &str, u32>(Ok(5)), Ok(Async::Ready(Some(5))));
    assert_eq!(poll_next_message::<u8, &str, u32>(Err(WsFailure::ConnectionClosed(0))), Ok(Async::Ready(None)));
    assert_eq!(poll_next_message::<u8, &str, u32>(Err(WsFailure::WouldBlock(0))), Ok(Async::NotReady));
    assert_eq!(poll_next_message::<u8, &str, u32>(Err(WsFailure::Other(3))), Err(WsFailure::Other(3)));
}

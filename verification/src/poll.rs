//! Readiness of stream and sink operations, and how WebSocket results map onto it.
use vstd::prelude::*;

verus! {

/// Readiness of an operation that may have to wait for its stream.
#[derive(Debug, PartialEq, Eq, Structural)]
pub enum Async<T> {
    /// The operation completed with this value.
    Ready(T),
    /// The operation could not complete yet; it must be polled again.
    NotReady,
}

/// Outcome of handing an item to a sink.
#[derive(Debug, PartialEq, Eq, Structural)]
pub enum AsyncSink<T> {
    /// The item was accepted.
    Ready,
    /// The sink is full; the item is handed back to be sent later.
    NotReady(T),
}

/// What the library reads of a WebSocket error: whether the stream would block, whether
/// the connection was closed, whether the send queue is full (which hands the message
/// back), or anything else. Each variant keeps what the caller needs to report it.
#[derive(Debug, PartialEq, Eq, Structural)]
pub enum WsFailure<M, E> {
    /// An I/O error of kind `WouldBlock`: the operation must be retried later.
    WouldBlock(E),
    /// The connection was closed normally.
    ConnectionClosed(E),
    /// The send queue is full; the message was not queued.
    SendQueueFull(M),
    /// Any other error.
    Other(E),
}

/// `to_async` as a function on values.
pub open spec fn spec_to_async<T, M, E>(r: Result<T, WsFailure<M, E>>) -> Result<Async<T>, WsFailure<M, E>> {
    match r {
        Ok(x) => Ok(Async::Ready(x)),
        Err(WsFailure::WouldBlock(_)) => Ok(Async::NotReady),
        Err(e) => Err(e),
    }
}

/// Turns the result of a WebSocket operation into readiness: a success is ready, an
/// error that says the stream would block means "not ready", any other error stays an
/// error.
pub fn to_async<T, M, E>(r: Result<T, WsFailure<M, E>>) -> (res: Result<Async<T>, WsFailure<M, E>>)
    ensures
        res == spec_to_async(r),
{
    match r {
        Ok(x) => Ok(Async::Ready(x)),
        Err(WsFailure::WouldBlock(_)) => Ok(Async::NotReady),
        Err(e) => Err(e),
    }
}

/// `to_start_send` as a function on values.
pub open spec fn spec_to_start_send<M, E>(r: Result<(), WsFailure<M, E>>) -> Result<AsyncSink<M>, WsFailure<M, E>> {
    match r {
        Ok(_) => Ok(AsyncSink::Ready),
        Err(WsFailure::WouldBlock(_)) => Ok(AsyncSink::Ready),
        Err(WsFailure::SendQueueFull(m)) => Ok(AsyncSink::NotReady(m)),
        Err(e) => Err(e),
    }
}

/// Turns the result of queueing a message into the outcome of a sink's `start_send`: a
/// message that was queued, or whose write would block, counts as accepted (it sits in
/// the send queue); a full queue hands the message back; other errors stay errors.
pub fn to_start_send<M, E>(r: Result<(), WsFailure<M, E>>) -> (res: Result<AsyncSink<M>, WsFailure<M, E>>)
    ensures
        res == spec_to_start_send(r),
{
    match r {
        Ok(_) => Ok(AsyncSink::Ready),
        Err(WsFailure::WouldBlock(_)) => Ok(AsyncSink::Ready),
        Err(WsFailure::SendQueueFull(m)) => Ok(AsyncSink::NotReady(m)),
        Err(e) => Err(e),
    }
}

/// `cvt` as a function on values.
pub open spec fn spec_cvt<T, M, E>(r: Result<T, WsFailure<M, E>>) -> Async<Result<T, WsFailure<M, E>>> {
    match r {
        Err(WsFailure::WouldBlock(_)) => Async::NotReady,
        _ => Async::Ready(r),
    }
}

/// Turns the result of a WebSocket operation into a poll result: "would block" becomes
/// pending, and every other result, success or error, is ready as it is.
pub fn cvt<T, M, E>(r: Result<T, WsFailure<M, E>>) -> (res: Async<Result<T, WsFailure<M, E>>>)
    ensures
        res == spec_cvt(r),
{
    match r {
        Err(WsFailure::WouldBlock(_)) => Async::NotReady,
        _ => Async::Ready(r),
    }
}

/// `poll_next_message` as a function on values.
pub open spec fn spec_poll_next_message<T, M, E>(r: Result<T, WsFailure<M, E>>) -> Result<Async<Option<T>>, WsFailure<M, E>> {
    match r {
        Ok(x) => Ok(Async::Ready(Some(x))),
        Err(WsFailure::WouldBlock(_)) => Ok(Async::NotReady),
        Err(WsFailure::ConnectionClosed(_)) => Ok(Async::Ready(None)),
        Err(e) => Err(e),
    }
}

/// What the stream of messages yields for the result of reading one message: the message
/// itself, "not ready" when the read would block, the end of the stream when the
/// connection was closed normally, and the error otherwise.
pub fn poll_next_message<T, M, E>(r: Result<T, WsFailure<M, E>>) -> (res: Result<Async<Option<T>>, WsFailure<M, E>>)
    ensures
        res == spec_poll_next_message(r),
{
    let mapped = match r {
        Ok(x) => Ok(Some(x)),
        Err(e) => Err(e),
    };
    match to_async(mapped) {
        Ok(a) => Ok(a),
        Err(WsFailure::ConnectionClosed(_)) => Ok(Async::Ready(None)),
        Err(e) => Err(e),
    }
}

/// A would-block result is never reported as an error: the stream, the sink and the
/// poll conversion all turn it into waiting (or, for the sink, into acceptance of the
/// queued message), and none of them turns it into `Err`.
pub proof fn lemma_would_block_is_never_an_error<T, M, E>(e: E)
    ensures
        spec_to_async(Err::<T, WsFailure<M, E>>(WsFailure::WouldBlock(e))) == Ok::<Async<T>, WsFailure<M, E>>(Async::NotReady),
        spec_poll_next_message(Err::<T, WsFailure<M, E>>(WsFailure::WouldBlock(e))) == Ok::<Async<Option<T>>, WsFailure<M, E>>(Async::NotReady),
        spec_cvt(Err::<T, WsFailure<M, E>>(WsFailure::WouldBlock(e))) == Async::<Result<T, WsFailure<M, E>>>::NotReady,
        spec_to_start_send(Err::<(), WsFailure<M, E>>(WsFailure::WouldBlock(e))) == Ok::<AsyncSink<M>, WsFailure<M, E>>(AsyncSink::Ready),
{
}

/// The poll conversion and the readiness conversion agree: `cvt` is pending exactly when
/// `to_async` says "not ready", and otherwise carries the same value or the same error.
pub proof fn lemma_cvt_agrees_with_to_async<T, M, E>(r: Result<T, WsFailure<M, E>>)
    ensures
        (spec_cvt(r) is NotReady) <==> (spec_to_async(r) == Ok::<Async<T>, WsFailure<M, E>>(Async::NotReady)),
        r is Ok ==> spec_cvt(r) == Async::Ready(r) && spec_to_async(r) == Ok::<Async<T>, WsFailure<M, E>>(Async::Ready(r->Ok_0)),
        (r is Err && !(r->Err_0 is WouldBlock)) ==> spec_cvt(r) == Async::Ready(r) && spec_to_async(r) == Err::<Async<T>, WsFailure<M, E>>(r->Err_0),
{
}

/// What each conversion does with every outcome of a WebSocket operation. A success is
/// ready with its value. "Would block" is waiting, except that a message whose write
/// would block sits in the send queue and counts as accepted. A full send queue hands the
/// same message back. A normal close ends the stream of messages. Every other error
/// (and a close, for everything but the stream of messages) is passed on unchanged; no
/// error is ever turned into acceptance or readiness.
pub proof fn lemma_conversions_keep_errors<T, M, E>(x: T, m: M, e: E, f: WsFailure<M, E>)
    ensures
        spec_to_start_send(Ok::<(), WsFailure<M, E>>(())) == Ok::<AsyncSink<M>, WsFailure<M, E>>(AsyncSink::Ready),
        spec_to_start_send(Err::<(), WsFailure<M, E>>(WsFailure::SendQueueFull(m)))
            == Ok::<AsyncSink<M>, WsFailure<M, E>>(AsyncSink::NotReady(m)),
        !(f is WouldBlock) && !(f is SendQueueFull) ==> spec_to_start_send(Err::<(), WsFailure<M, E>>(f))
            == Err::<AsyncSink<M>, WsFailure<M, E>>(f),
        spec_to_start_send(Err::<(), WsFailure<M, E>>(WsFailure::ConnectionClosed(e)))
            == Err::<AsyncSink<M>, WsFailure<M, E>>(WsFailure::ConnectionClosed(e)),
        spec_to_async(Ok::<T, WsFailure<M, E>>(x)) == Ok::<Async<T>, WsFailure<M, E>>(Async::Ready(x)),
        !(f is WouldBlock) ==> spec_to_async(Err::<T, WsFailure<M, E>>(f)) == Err::<Async<T>, WsFailure<M, E>>(f),
        spec_poll_next_message(Ok::<T, WsFailure<M, E>>(x)) == Ok::<Async<Option<T>>, WsFailure<M, E>>(Async::Ready(Some(x))),
        spec_poll_next_message(Err::<T, WsFailure<M, E>>(WsFailure::ConnectionClosed(e)))
            == Ok::<Async<Option<T>>, WsFailure<M, E>>(Async::Ready(None)),
        !(f is WouldBlock) && !(f is ConnectionClosed) ==> spec_poll_next_message(Err::<T, WsFailure<M, E>>(f))
            == Err::<Async<Option<T>>, WsFailure<M, E>>(f),
        spec_cvt(Ok::<T, WsFailure<M, E>>(x)) == Async::Ready(Ok::<T, WsFailure<M, E>>(x)),
        !(f is WouldBlock) ==> spec_cvt(Err::<T, WsFailure<M, E>>(f)) == Async::Ready(Err::<T, WsFailure<M, E>>(f)),
{
}

/// A message is accepted by the sink only when it was queued or its write would block,
/// and handed back only when the queue is full; the stream of messages ends only on a
/// normal close and waits only when the read would block.
pub proof fn lemma_outcomes_come_from_their_causes<T, M, E>(r: Result<(), WsFailure<M, E>>, q: Result<T, WsFailure<M, E>>)
    ensures
        spec_to_start_send(r) == Ok::<AsyncSink<M>, WsFailure<M, E>>(AsyncSink::Ready) <==> (r is Ok || r->Err_0 is WouldBlock),
        spec_to_start_send(r) matches Ok(AsyncSink::NotReady(m)) ==> r == Err::<(), WsFailure<M, E>>(WsFailure::SendQueueFull(m)),
        spec_poll_next_message(q) == Ok::<Async<Option<T>>, WsFailure<M, E>>(Async::Ready(None)) <==> (q is Err && q->Err_0 is ConnectionClosed),
        spec_poll_next_message(q) == Ok::<Async<Option<T>>, WsFailure<M, E>>(Async::NotReady) <==> (q is Err && q->Err_0 is WouldBlock),
        spec_to_async(q) == Ok::<Async<T>, WsFailure<M, E>>(Async::NotReady) <==> (q is Err && q->Err_0 is WouldBlock),
{
}

} // verus!

//! Answering pings automatically: a stream of messages wrapped in `AutoPong` answers
//! every incoming ping with a pong that carries the same payload, and keeps pings and
//! pongs out of what it yields.
use vstd::prelude::*;
use crate::message::{Message, MessageView, option_view};

verus! {

/// Adds `auto_pong` to streams of messages.
pub trait AutoPongExt: Sized {
    /// Wraps a stream with automatic answering to ping messages.
    fn auto_pong(self) -> (res: AutoPong<Self>)
        ensures
            res.pending_pong() is None,
            res.inner() == self,
    ;
}

impl<S> AutoPongExt for S {
    fn auto_pong(self) -> (res: AutoPong<Self>) {
        AutoPong { do_pong: None, stream: self }
    }
}

/// A stream that answers pings: it remembers the payload of the last ping until its
/// pong was sent.
pub struct AutoPong<S> {
    do_pong: Option<Vec<u8>>,
    stream: S,
}

/// What to do with an incoming message: the item to yield (`Some`), or nothing, in
/// which case the stream is polled again; and the pong payload that is then pending.
/// A ping makes its payload pending and is not yielded, a pong is dropped, and any
/// other message, or the end of the stream, is yielded as it is.
pub open spec fn on_message_outcome(pending: Option<Seq<u8>>, msg: Option<MessageView>) -> (Option<Option<MessageView>>, Option<Seq<u8>>) {
    match msg {
        Some(MessageView::Ping(data)) => (None, Some(data)),
        Some(MessageView::Pong(_)) => (None, pending),
        _ => (Some(msg), pending),
    }
}

/// The pong to send for a pending payload, and what is pending afterwards (nothing).
pub open spec fn take_pong_outcome(pending: Option<Seq<u8>>) -> (Option<MessageView>, Option<Seq<u8>>) {
    match pending {
        Some(data) => (Some(MessageView::Pong(data)), None),
        None => (None, None),
    }
}

/// What is pending after the sink handed back a pong: that pong's payload.
pub open spec fn refused_pong_outcome(msg: MessageView) -> Option<Seq<u8>> {
    match msg {
        MessageView::Pong(data) => Some(data),
        _ => None,
    }
}

/// The view of what `on_message` returns.
pub open spec fn item_view(item: Option<Option<Message>>) -> Option<Option<MessageView>> {
    match item {
        Some(m) => Some(option_view(m)),
        None => None,
    }
}

/// What happened since the last step of a poll of the wrapper.
pub enum PollEvent {
    /// A poll of the wrapper begins.
    Polled,
    /// The sink took the pong.
    PongAccepted,
    /// The sink could not take the pong and handed this message back.
    PongRefused(Message),
    /// The sink was flushed.
    Flushed,
    /// The wrapped stream yielded this message, or its end (`None`).
    Received(Option<Message>),
    /// The wrapped stream is not ready.
    InnerNotReady,
}

/// What a poll of the wrapper does next.
pub enum PollAction {
    /// Hand this pong to the sink.
    SendPong(Message),
    /// Flush the sink.
    Flush,
    /// Poll the wrapped stream.
    PollInner,
    /// The poll is ready with this item (`None`: the stream ended).
    Yield(Option<Message>),
    /// The poll is not ready.
    Wait,
}

/// [`PollEvent`] as values.
pub enum PollEventView {
    /// A poll begins.
    Polled,
    /// The sink took the pong.
    PongAccepted,
    /// The sink handed this message back.
    PongRefused(MessageView),
    /// The sink was flushed.
    Flushed,
    /// The wrapped stream yielded this.
    Received(Option<MessageView>),
    /// The wrapped stream is not ready.
    InnerNotReady,
}

/// [`PollAction`] as values.
pub enum PollActionView {
    /// Hand this pong to the sink.
    SendPong(MessageView),
    /// Flush the sink.
    Flush,
    /// Poll the wrapped stream.
    PollInner,
    /// Ready with this item.
    Yield(Option<MessageView>),
    /// Not ready.
    Wait,
}

impl View for PollEvent {
    type V = PollEventView;

    open spec fn view(&self) -> PollEventView {
        match self {
            PollEvent::Polled => PollEventView::Polled,
            PollEvent::PongAccepted => PollEventView::PongAccepted,
            PollEvent::PongRefused(m) => PollEventView::PongRefused(m@),
            PollEvent::Flushed => PollEventView::Flushed,
            PollEvent::Received(m) => PollEventView::Received(option_view(*m)),
            PollEvent::InnerNotReady => PollEventView::InnerNotReady,
        }
    }
}

impl View for PollAction {
    type V = PollActionView;

    open spec fn view(&self) -> PollActionView {
        match self {
            PollAction::SendPong(m) => PollActionView::SendPong(m@),
            PollAction::Flush => PollActionView::Flush,
            PollAction::PollInner => PollActionView::PollInner,
            PollAction::Yield(m) => PollActionView::Yield(option_view(*m)),
            PollAction::Wait => PollActionView::Wait,
        }
    }
}

/// Where a poll goes when nothing is to be yielded yet: a pending pong is sent first,
/// and only then is the wrapped stream polled.
pub open spec fn pong_or_poll_outcome(pending: Option<Seq<u8>>) -> (PollActionView, Option<Seq<u8>>) {
    match take_pong_outcome(pending) {
        (Some(pong), rest) => (PollActionView::SendPong(pong), rest),
        (None, rest) => (PollActionView::PollInner, rest),
    }
}

/// One step of a poll of the wrapper: the action that follows an event, and the pong
/// payload that is pending afterwards. A poll sends the pending pong, flushes the sink
/// (also when the sink handed the pong back, which keeps it pending), polls the wrapped
/// stream, and then yields its item, waits, or, after a ping or a pong, goes round again.
pub open spec fn poll_step_outcome(pending: Option<Seq<u8>>, event: PollEventView) -> (PollActionView, Option<Seq<u8>>) {
    match event {
        PollEventView::Polled => pong_or_poll_outcome(pending),
        PollEventView::PongAccepted => (PollActionView::Flush, pending),
        PollEventView::PongRefused(m) => (PollActionView::Flush, refused_pong_outcome(m)),
        PollEventView::Flushed => (PollActionView::PollInner, pending),
        PollEventView::Received(msg) => match on_message_outcome(pending, msg) {
            (Some(item), rest) => (PollActionView::Yield(item), rest),
            (None, rest) => pong_or_poll_outcome(rest),
        },
        PollEventView::InnerNotReady => (PollActionView::Wait, pending),
    }
}

impl<S> AutoPong<S> {
    /// The payload of the ping that still has to be answered.
    pub closed spec fn pending_pong(&self) -> Option<Seq<u8>> {
        match self.do_pong {
            Some(d) => Some(d@),
            None => None,
        }
    }

    /// The wrapped stream.
    pub closed spec fn inner(&self) -> S {
        self.stream
    }

    /// The wrapped stream.
    pub fn get_ref(&self) -> (res: &S)
        ensures
            *res == self.inner(),
    {
        &self.stream
    }

    /// The wrapped stream, to poll it or send on it.
    pub fn get_mut(&mut self) -> (res: &mut S)
        ensures
            *res == old(self).inner(),
            final(self).inner() == *final(res),
            final(self).pending_pong() == old(self).pending_pong(),
    {
        &mut self.stream
    }

    /// The pong for the pending ping, if there is one; nothing is pending afterwards.
    pub fn take_pong(&mut self) -> (res: Option<Message>)
        ensures
            (option_view(res), final(self).pending_pong()) == take_pong_outcome(old(self).pending_pong()),
            final(self).inner() == old(self).inner(),
    {
        match self.do_pong.take() {
            Some(data) => Some(Message::Pong(data)),
            None => None,
        }
    }

    /// The sink could not take the pong and handed it back: it stays pending. The sink
    /// must hand back the message it was given, which is a pong.
    pub fn pong_not_sent(&mut self, msg: Message)
        requires
            msg is Pong,
        ensures
            final(self).pending_pong() == refused_pong_outcome(msg@),
            final(self).pending_pong() == Some(msg->Pong_0@),
            final(self).inner() == old(self).inner(),
    {
        match msg {
            Message::Pong(data) => {
                self.do_pong = Some(data);
            },
            _ => {},
        }
    }

    /// Sends the pending pong if there is one, else polls the wrapped stream.
    fn pong_or_poll(&mut self) -> (res: PollAction)
        ensures
            (res@, final(self).pending_pong()) == pong_or_poll_outcome(old(self).pending_pong()),
            final(self).inner() == old(self).inner(),
    {
        match self.take_pong() {
            Some(pong) => PollAction::SendPong(pong),
            None => PollAction::PollInner,
        }
    }

    /// One step of a poll: what to do after `event`. The sink must hand back the message
    /// it was given, which is a pong.
    pub fn step(&mut self, event: PollEvent) -> (res: PollAction)
        requires
            event matches PollEvent::PongRefused(m) ==> m is Pong,
        ensures
            (res@, final(self).pending_pong()) == poll_step_outcome(old(self).pending_pong(), event@),
            final(self).inner() == old(self).inner(),
    {
        match event {
            PollEvent::Polled => self.pong_or_poll(),
            PollEvent::PongAccepted => PollAction::Flush,
            PollEvent::PongRefused(m) => {
                self.pong_not_sent(m);
                PollAction::Flush
            },
            PollEvent::Flushed => PollAction::PollInner,
            PollEvent::Received(msg) => match self.on_message(msg) {
                Some(item) => PollAction::Yield(item),
                None => self.pong_or_poll(),
            },
            PollEvent::InnerNotReady => PollAction::Wait,
        }
    }

    /// Handles what the wrapped stream yielded: `Some(item)` is to be yielded by the
    /// wrapper, `None` means the wrapped stream is to be polled again.
    pub fn on_message(&mut self, msg: Option<Message>) -> (res: Option<Option<Message>>)
        ensures
            (item_view(res), final(self).pending_pong()) == on_message_outcome(old(self).pending_pong(), option_view(msg)),
            final(self).inner() == old(self).inner(),
            res matches Some(item) ==> item == msg,
    {
        match msg {
            Some(Message::Ping(data)) => {
                self.do_pong = Some(data);
                None
            },
            Some(Message::Pong(_)) => None,
            other => Some(other),
        }
    }
}

/// Every ping is answered: after a ping arrives, the next pong taken carries its payload,
/// and the ping itself is not yielded.
pub proof fn lemma_ping_is_answered(pending: Option<Seq<u8>>, data: Seq<u8>)
    ensures
        on_message_outcome(pending, Some(MessageView::Ping(data))).0 is None,
        take_pong_outcome(on_message_outcome(pending, Some(MessageView::Ping(data))).1).0
            == Some(MessageView::Pong(data)),
{
}

/// Pings and pongs never reach the reader; every other message, and the end of the
/// stream, reaches it unchanged, and leaves the pending pong as it was.
pub proof fn lemma_only_control_messages_are_absorbed(pending: Option<Seq<u8>>, msg: Option<MessageView>)
    ensures
        (msg matches Some(m) && (m is Ping || m is Pong)) <==> on_message_outcome(pending, msg).0 is None,
        on_message_outcome(pending, msg).0 is Some ==> on_message_outcome(pending, msg) == (Some(msg), pending),
{
}

/// A pong that the sink could not take is retried, not dropped: the pong taken for a
/// pending payload, once handed back, is pending again, so the next pong taken is the
/// same pong; and until then an incoming message other than a ping leaves it pending.
pub proof fn lemma_refused_pong_is_retried(data: Seq<u8>, next: Option<MessageView>)
    ensures
        take_pong_outcome(Some(data)).0 == Some(MessageView::Pong(data)),
        refused_pong_outcome(take_pong_outcome(Some(data)).0->Some_0) == Some(data),
        take_pong_outcome(refused_pong_outcome(take_pong_outcome(Some(data)).0->Some_0)).0 == Some(MessageView::Pong(data)),
        !(next matches Some(MessageView::Ping(_))) ==> on_message_outcome(Some(data), next).1 == Some(data),
{
}

/// Across polls, a pong that the sink could not take is retried before anything else:
/// after the sink hands it back, the sink is flushed and the wrapped stream polled; if
/// that stream is not ready the poll waits, and the next poll first sends the same pong
/// again, before it polls the wrapped stream.
pub proof fn lemma_refused_pong_is_resent_first(pending: Option<Seq<u8>>, data: Seq<u8>)
    ensures
        ({
            let (a1, p1) = poll_step_outcome(pending, PollEventView::PongRefused(MessageView::Pong(data)));
            let (a2, p2) = poll_step_outcome(p1, PollEventView::Flushed);
            let (a3, p3) = poll_step_outcome(p2, PollEventView::InnerNotReady);
            let (a4, p4) = poll_step_outcome(p3, PollEventView::Polled);
            &&& a1 == PollActionView::Flush
            &&& a2 == PollActionView::PollInner
            &&& a3 == PollActionView::Wait
            &&& a4 == PollActionView::SendPong(MessageView::Pong(data))
            &&& p4 is None
        }),
{
}

/// A poll never polls the wrapped stream while a pong is pending: when a poll begins,
/// or after the wrapped stream yielded a message that is not passed on, a pending pong
/// is sent first.
pub proof fn lemma_pending_pong_goes_before_polling(pending: Option<Seq<u8>>, msg: Option<MessageView>)
    ensures
        pending matches Some(d) ==> poll_step_outcome(pending, PollEventView::Polled).0
            == PollActionView::SendPong(MessageView::Pong(d)),
        on_message_outcome(pending, msg).0 is None ==> (
            on_message_outcome(pending, msg).1 matches Some(d) ==> poll_step_outcome(pending, PollEventView::Received(msg)).0
                == PollActionView::SendPong(MessageView::Pong(d))),
{
}

/// What each event of a poll leads to, for every pending payload. The poll waits exactly
/// when the wrapped stream is not ready, and then keeps the pending pong; it ends the
/// stream exactly when the wrapped stream ended; it yields only what the wrapped stream
/// yielded, never a ping or a pong; after a write to the sink it flushes, and after the
/// flush it polls the wrapped stream; every pong it sends carries the payload of the
/// latest ping, and then nothing is pending.
pub proof fn lemma_poll_step_meaning(pending: Option<Seq<u8>>, event: PollEventView)
    ensures
        poll_step_outcome(pending, PollEventView::InnerNotReady) == (PollActionView::Wait, pending),
        (poll_step_outcome(pending, event).0 == PollActionView::Wait) <==> event == PollEventView::InnerNotReady,
        (poll_step_outcome(pending, event).0 == PollActionView::Yield(None)) <==> event == PollEventView::Received(None),
        poll_step_outcome(pending, event).0 matches PollActionView::Yield(Some(m)) ==> {
            &&& event == PollEventView::Received(Some(m))
            &&& !(m is Ping) && !(m is Pong)
            &&& poll_step_outcome(pending, event).1 == pending
        },
        poll_step_outcome(pending, PollEventView::PongAccepted) == (PollActionView::Flush, pending),
        poll_step_outcome(pending, PollEventView::Flushed) == (PollActionView::PollInner, pending),
        poll_step_outcome(None, PollEventView::Polled) == (PollActionView::PollInner, None::<Seq<u8>>),
        poll_step_outcome(pending, event).0 matches PollActionView::SendPong(m) ==> {
            &&& event == PollEventView::Polled || event is Received
            &&& poll_step_outcome(pending, event).1 is None
            &&& (event == PollEventView::Polled ==> pending is Some && m == MessageView::Pong(pending->Some_0))
            &&& (event matches PollEventView::Received(Some(MessageView::Ping(d))) ==> m == MessageView::Pong(d))
        },
        event matches PollEventView::Received(Some(MessageView::Ping(d))) ==>
            poll_step_outcome(pending, event) == (PollActionView::SendPong(MessageView::Pong(d)), None::<Seq<u8>>),
        event matches PollEventView::PongRefused(MessageView::Pong(d)) ==>
            poll_step_outcome(pending, event) == (PollActionView::Flush, Some(d)),
{
}

/// Each incoming message, one by one: a ping replaces the pending payload with its own
/// and is not yielded; a pong is dropped and leaves the pending payload alone; anything
/// else, and the end of the stream, is yielded as it is. Taking the pong hands out the
/// pending payload as a pong and leaves nothing pending; a pong handed back is pending
/// again.
pub proof fn lemma_message_handling(pending: Option<Seq<u8>>, d: Seq<u8>, m: MessageView)
    ensures
        on_message_outcome(pending, Some(MessageView::Ping(d))) == (None::<Option<MessageView>>, Some(d)),
        on_message_outcome(pending, Some(MessageView::Pong(d))) == (None::<Option<MessageView>>, pending),
        !(m is Ping) && !(m is Pong) ==> on_message_outcome(pending, Some(m)) == (Some(Some(m)), pending),
        on_message_outcome(pending, None) == (Some(None::<MessageView>), pending),
        take_pong_outcome(Some(d)) == (Some(MessageView::Pong(d)), None::<Seq<u8>>),
        take_pong_outcome(None) == (None::<MessageView>, None::<Seq<u8>>),
        refused_pong_outcome(MessageView::Pong(d)) == Some(d),
{
}

} // verus!

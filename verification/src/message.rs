//! WebSocket messages, as the library reads them.
use vstd::prelude::*;

verus! {

/// The frame that closes a connection: a status code and a reason.
pub struct CloseFrame {
    /// The close code.
    pub code: u16,
    /// The reason, possibly empty.
    pub reason: String,
}

/// A WebSocket message.
pub enum Message {
    /// A text message.
    Text(String),
    /// A binary message.
    Binary(Vec<u8>),
    /// A ping, with its payload.
    Ping(Vec<u8>),
    /// A pong, with its payload.
    Pong(Vec<u8>),
    /// A close message, with its frame if it has one.
    Close(Option<CloseFrame>),
}

/// [`Message`] as values.
pub enum MessageView {
    /// A text message.
    Text(Seq<char>),
    /// A binary message.
    Binary(Seq<u8>),
    /// A ping, with its payload.
    Ping(Seq<u8>),
    /// A pong, with its payload.
    Pong(Seq<u8>),
    /// A close message, with its code and reason if it has a frame.
    Close(Option<(u16, Seq<char>)>),
}

impl View for Message {
    type V = MessageView;

    open spec fn view(&self) -> MessageView {
        match self {
            Message::Text(s) => MessageView::Text(s@),
            Message::Binary(b) => MessageView::Binary(b@),
            Message::Ping(b) => MessageView::Ping(b@),
            Message::Pong(b) => MessageView::Pong(b@),
            Message::Close(f) => MessageView::Close(
                match f {
                    Some(f) => Some((f.code, f.reason@)),
                    None => None,
                },
            ),
        }
    }
}

/// An optional message as values.
pub open spec fn option_view(m: Option<Message>) -> Option<MessageView> {
    match m {
        Some(m) => Some(m@),
        None => None,
    }
}

} // verus!

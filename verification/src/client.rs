//! What a client sends over the WebSocket, as the proxy sees it.
use vstd::prelude::*;

use crate::lsp;
use crate::lsp::json::Json;
use crate::lsp::json::JsonView;
use crate::lsp::message_of;
use crate::lsp::MessageView;

verus! {

/// Type to describe a message from the client conveniently.
#[derive(Debug, PartialEq)]
pub enum Message {
    /// Valid LSP message
    Message(lsp::Message),
    /// Invalid JSON
    Invalid(String),
    /// Close message
    Close,
}

/// What a message from the client is.
pub ghost enum ClientMessageView {
    Message(MessageView),
    Invalid(Seq<char>),
    Close,
}

impl View for Message {
    type V = ClientMessageView;

    open spec fn view(&self) -> ClientMessageView {
        match self {
            Message::Message(message) => ClientMessageView::Message(message@),
            Message::Invalid(text) => ClientMessageView::Invalid(text@),
            Message::Close => ClientMessageView::Close,
        }
    }
}

/// A frame of the WebSocket.
#[derive(Debug, PartialEq)]
pub enum Frame {
    /// A close frame.
    Close,
    /// A text frame: the text, and the JSON value that it writes, if it
    /// writes one.
    Text { text: String, json: Option<Json> },
    /// A binary frame, a ping or a pong.
    Other,
}

/// What a frame is.
pub ghost enum FrameView {
    Close,
    Text { text: Seq<char>, json: Option<JsonView> },
    Other,
}

impl View for Frame {
    type V = FrameView;

    open spec fn view(&self) -> FrameView {
        match self {
            Frame::Close => FrameView::Close,
            Frame::Text { text, json } => FrameView::Text {
                text: text@,
                json: match json {
                    Some(json) => Some(json@),
                    None => None,
                },
            },
            Frame::Other => FrameView::Other,
        }
    }
}

/// The message that a frame is for the proxy: a text frame is the message
/// that its JSON value is, or an invalid message with its text; of the
/// other frames only a close is kept.
pub open spec fn message_of_frame(frame: FrameView) -> Option<ClientMessageView> {
    match frame {
        FrameView::Close => Some(ClientMessageView::Close),
        FrameView::Text { text, json } => match json {
            Some(json) => Some(ClientMessageView::Message(message_of(json))),
            None => Some(ClientMessageView::Invalid(text)),
        },
        FrameView::Other => None,
    }
}

/// Parse the message and ignore anything we don't care.
pub fn filter_map_warp_ws_message(frame: Frame) -> (message: Option<Message>)
    ensures
        match message {
            Some(found) => message_of_frame(frame@) == Some(found@),
            None => message_of_frame(frame@) is None,
        },
{
    match frame {
        Frame::Close => Some(Message::Close),
        Frame::Text { text, json } => match json {
            Some(json) => Some(Message::Message(lsp::Message::from_json(json))),
            None => Some(Message::Invalid(text)),
        },
        // Ignore any other message types
        Frame::Other => None,
    }
}

} // verus!

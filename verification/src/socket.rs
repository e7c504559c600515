//! The socket session and the frames that arrive on it.

use crate::decoder::{failure_event, shape_cause, Failure, FailureView};
use crate::json::{reading_view, Json, JsonModel};
use crate::schema::message_of;
use crate::wire::{ActionView, ChatMessage, ShinDensenClientAction};
use vstd::prelude::*;
use vstd::string::*;

verus! {

/// How many frames one drain cycle should poll at most, so that a busy
/// socket does not starve other work.
pub const FRAMES_PER_CYCLE: usize = 64;

/// Where a live socket session stands.
#[derive(Clone, Copy, Debug, PartialEq, Eq, Structural)]
pub enum SocketPhase {
    /// The connection was asked for and has not reported yet.
    Opening,
    /// The connection reported that it is open.
    Open,
}

/// A live socket session: its phase and the credential it was opened with.
/// No session at all is the closed state.
#[derive(Clone, Debug, PartialEq)]
pub struct SocketSession {
    pub phase: SocketPhase,
    pub token: String,
}

/// What [`SocketSession`] holds, with texts and lists as sequences.
pub struct SocketSessionView {
    pub phase: SocketPhase,
    pub token: Seq<char>,
}

impl View for SocketSession {
    type V = SocketSessionView;

    open spec fn view(&self) -> SocketSessionView {
        SocketSessionView { phase: self.phase, token: self.token@ }
    }
}

/// View of the session that a client may hold.
pub open spec fn session_view(socket: Option<SocketSession>) -> Option<SocketSessionView> {
    match socket {
        Some(session) => Some(session@),
        None => None,
    }
}

/// An inbound frame of the socket.
#[derive(Clone, Debug, PartialEq)]
pub enum SocketFrame {
    /// The connection is open.
    Opened,
    /// A text message.
    Message(String),
    /// The peer closed the connection.
    Closed,
    /// The connection failed.
    Error(String),
    /// Any other frame; it is passed over.
    Other,
}

/// What [`SocketFrame`] holds, with texts and lists as sequences.
pub enum FrameView {
    Opened,
    Message(Seq<char>),
    Closed,
    Error(Seq<char>),
    Other,
}

impl View for SocketFrame {
    type V = FrameView;

    open spec fn view(&self) -> FrameView {
        match self {
            SocketFrame::Opened => FrameView::Opened,
            SocketFrame::Message(text) => FrameView::Message(text@),
            SocketFrame::Closed => FrameView::Closed,
            SocketFrame::Error(detail) => FrameView::Error(detail@),
            SocketFrame::Other => FrameView::Other,
        }
    }
}

/// Views of a list of frames, in order.
pub open spec fn frames_view(frames: Seq<SocketFrame>) -> Seq<FrameView> {
    frames.map_values(|f: SocketFrame| f@)
}

/// The event for a text frame, given what the JSON reader made of its text:
/// the chat message in it, or the decode failure as it is reported.
pub open spec fn message_event(text: Seq<char>, reading: Result<JsonModel, Seq<char>>)
    -> ActionView {
    match reading {
        Err(cause) => failure_event(
            FailureView::DecodeError { operation: None, raw_body: text, cause },
        ),
        Ok(j) => match message_of(j) {
            Some(m) => ActionView::NewMessage(m),
            None => failure_event(
                FailureView::DecodeError { operation: None, raw_body: text, cause: shape_cause() },
            ),
        },
    }
}

/// The event for a text frame, given what the JSON reader made of its text.
pub fn message_event_from(text: String, reading: Result<Json, String>) -> (r:
    ShinDensenClientAction)
    ensures
        r@ == message_event(text@, reading_view(reading)),
{
    match reading {
        Err(cause) => Failure::DecodeError { operation: None, raw_body: text, cause }.into_action(),
        Ok(value) => match ChatMessage::from_json(&value) {
            Some(message) => ShinDensenClientAction::NewMessage(message),
            None => Failure::DecodeError {
                operation: None,
                raw_body: text,
                cause: String::from_str("body does not have the expected shape"),
            }.into_action(),
        },
    }
}

/// The event that reports that the peer closed the connection.
pub open spec fn socket_closed_event() -> ActionView {
    ActionView::NetworkError("WebSocket Closed"@)
}

/// The event that reports that the peer closed the connection.
pub fn socket_closed() -> (r: ShinDensenClientAction)
    ensures
        r@ == socket_closed_event(),
{
    ShinDensenClientAction::NetworkError(String::from_str("WebSocket Closed"))
}

/// The event that reports a failed connection.
pub open spec fn socket_error_event(detail: Seq<char>) -> ActionView {
    ActionView::NetworkError("WebSocket error: "@ + detail)
}

/// The event that reports a failed connection.
pub fn socket_error(detail: &str) -> (r: ShinDensenClientAction)
    ensures
        r@ == socket_error_event(detail@),
{
    let mut text = String::from_str("WebSocket error: ");
    text.append(detail);
    ShinDensenClientAction::NetworkError(text)
}

/// The event that reports that a text could not be sent on the socket.
pub open spec fn send_failed_event(detail: Seq<char>) -> ActionView {
    ActionView::NetworkError("WebSocket send error: "@ + detail)
}

/// The event that reports that a text could not be sent on the socket.
pub fn send_failed(detail: &str) -> (r: ShinDensenClientAction)
    ensures
        r@ == send_failed_event(detail@),
{
    let mut text = String::from_str("WebSocket send error: ");
    text.append(detail);
    ShinDensenClientAction::NetworkError(text)
}

} // verus!

//! The response decoder: from an operation, a status code and the bytes of a
//! body to a typed event or a typed failure.

use crate::json::{read, reading, reading_view, Json, JsonModel};
use crate::request::RequestTag;
use crate::schema::{
    auth_of, chat_list_of, chats_from, history_of, initiate_of, user_of,
};
use crate::text::{decimal, decimal_text};
use crate::wire::{
    ActionView, AuthResponse, GetHistoryResponse, InitiateChatResponse, ShinDensenClientAction,
    UserInfoResponse,
};
use vstd::prelude::*;
use vstd::string::*;
use vstd::utf8::{decode_utf8, encode_utf8, encode_utf8_decode_utf8, valid_utf8};

verus! {

/// Why a request produced no event.
#[derive(Clone, Debug, PartialEq)]
pub enum Failure {
    /// The backend answered with a status outside the success range.
    ServerError { status: u16, operation: RequestTag },
    /// The body is no JSON text, or not of the shape that the operation
    /// expects. A message that arrived on the socket has no operation.
    DecodeError { operation: Option<RequestTag>, raw_body: String, cause: String },
    /// The body is not UTF-8.
    EncodingError { operation: RequestTag },
    /// The transport failed.
    NetworkError { detail: String },
    /// The client was misused.
    Error { text: String },
}

/// What [`Failure`] holds, with texts and lists as sequences.
pub enum FailureView {
    ServerError { status: u16, operation: RequestTag },
    DecodeError { operation: Option<RequestTag>, raw_body: Seq<char>, cause: Seq<char> },
    EncodingError { operation: RequestTag },
    NetworkError { detail: Seq<char> },
    Error { text: Seq<char> },
}

impl View for Failure {
    type V = FailureView;

    open spec fn view(&self) -> FailureView {
        match self {
            Failure::ServerError { status, operation } => FailureView::ServerError {
                status: *status,
                operation: *operation,
            },
            Failure::DecodeError { operation, raw_body, cause } => FailureView::DecodeError {
                operation: *operation,
                raw_body: raw_body@,
                cause: cause@,
            },
            Failure::EncodingError { operation } => FailureView::EncodingError {
                operation: *operation,
            },
            Failure::NetworkError { detail } => FailureView::NetworkError { detail: detail@ },
            Failure::Error { text } => FailureView::Error { text: text@ },
        }
    }
}

/// The name of what was being decoded.
pub open spec fn subject_label(operation: Option<RequestTag>) -> Seq<char> {
    match operation {
        Some(tag) => tag.label(),
        None => "WebSocketMessage"@,
    }
}

/// The event under which a failure appears to the application: transport
/// failures as `NetworkError`, all others as `Error`, each with its message.
pub open spec fn failure_event(f: FailureView) -> ActionView {
    match f {
        FailureView::ServerError { status, operation } => ActionView::Error(
            "Server returned error code "@ + decimal(status as int) + " for request "@
                + operation.label(),
        ),
        FailureView::DecodeError { operation, raw_body, cause } => ActionView::Error(
            "Parsing "@ + subject_label(operation) + ": "@ + cause,
        ),
        FailureView::EncodingError { operation } => ActionView::Error(
            "Parsing "@ + operation.label() + ": body is not valid UTF-8"@,
        ),
        FailureView::NetworkError { detail } => ActionView::NetworkError(detail),
        FailureView::Error { text } => ActionView::Error(text),
    }
}

impl Failure {
    /// Turns the failure into the event under which it is reported.
    pub fn into_action(self) -> (r: ShinDensenClientAction)
        ensures
            r@ == failure_event(self@),
    {
        match self {
            Failure::ServerError { status, operation } => {
                let mut text = String::from_str("Server returned error code ");
                let code = decimal_text(status as i64);
                text.append(code.as_str());
                text.append(" for request ");
                text.append(operation.name());
                ShinDensenClientAction::Error(text)
            },
            Failure::DecodeError { operation, raw_body, cause } => {
                let mut text = String::from_str("Parsing ");
                let subject = match operation {
                    Some(tag) => tag.name(),
                    None => "WebSocketMessage",
                };
                text.append(subject);
                text.append(": ");
                text.append(cause.as_str());
                ShinDensenClientAction::Error(text)
            },
            Failure::EncodingError { operation } => {
                let mut text = String::from_str("Parsing ");
                text.append(operation.name());
                text.append(": body is not valid UTF-8");
                ShinDensenClientAction::Error(text)
            },
            Failure::NetworkError { detail } => ShinDensenClientAction::NetworkError(detail),
            Failure::Error { text } => ShinDensenClientAction::Error(text),
        }
    }
}

/// View of the outcome of decoding.
pub open spec fn outcome_view(r: Result<ShinDensenClientAction, Failure>) -> Result<
    ActionView,
    FailureView,
> {
    match r {
        Ok(action) => Ok(action@),
        Err(failure) => Err(failure@),
    }
}

/// Whether a status code is in the success range.
pub open spec fn is_success(status: u16) -> bool {
    200 <= status <= 299
}

/// The cause reported when a body is JSON but not of the expected shape.
pub open spec fn shape_cause() -> Seq<char> {
    "body does not have the expected shape"@
}

/// The event that an operation reads out of a JSON value, if the value has
/// the shape that the operation expects. A successful login yields the
/// bearer token.
pub open spec fn event_of(tag: RequestTag, j: JsonModel) -> Option<ActionView> {
    match tag {
        RequestTag::Authenticate => match auth_of(j) {
            Some(a) => Some(ActionView::Token(a.token)),
            None => None,
        },
        RequestTag::ListChats => match chat_list_of(j) {
            Some(chats) => Some(ActionView::Chats(chats)),
            None => None,
        },
        RequestTag::GetHistory => match history_of(j) {
            Some(h) => Some(ActionView::History(h)),
            None => None,
        },
        RequestTag::SearchUser => match user_of(j) {
            Some(u) => Some(ActionView::UserSearchResponse(u)),
            None => None,
        },
        RequestTag::GetUserById => match user_of(j) {
            Some(u) => Some(ActionView::UserInfo(u)),
            None => None,
        },
        RequestTag::InitiateChat => match initiate_of(j) {
            Some(r) => Some(ActionView::InitiateChat(r)),
            None => None,
        },
    }
}

/// The outcome for a body text, given what the JSON reader made of it.
pub open spec fn reading_outcome(
    tag: RequestTag,
    text: Seq<char>,
    reading: Result<JsonModel, Seq<char>>,
) -> Result<ActionView, FailureView> {
    match reading {
        Err(cause) => Err(FailureView::DecodeError { operation: Some(tag), raw_body: text, cause }),
        Ok(j) => match event_of(tag, j) {
            Some(event) => Ok(event),
            None => Err(
                FailureView::DecodeError {
                    operation: Some(tag),
                    raw_body: text,
                    cause: shape_cause(),
                },
            ),
        },
    }
}

/// The outcome of decoding an answer:
/// - "not found" on a user lookup is the event `UserNotFound`;
/// - any other status outside the success range is a `ServerError`;
/// - a body that is not UTF-8 is an `EncodingError`;
/// - a body that is no JSON, nests too deep, or is not of the operation's
///   shape, is a `DecodeError`;
/// - otherwise the operation's event.
pub open spec fn decode_outcome(tag: RequestTag, status: u16, body: Seq<u8>) -> Result<
    ActionView,
    FailureView,
> {
    if tag.is_lookup() && status == 404 {
        Ok(ActionView::UserNotFound)
    } else if !is_success(status) {
        Err(FailureView::ServerError { status, operation: tag })
    } else if !valid_utf8(body) {
        Err(FailureView::EncodingError { operation: tag })
    } else {
        reading_outcome(tag, decode_utf8(body), reading(decode_utf8(body)))
    }
}

/// Reads the operation's event out of a JSON value.
pub fn event_from(tag: RequestTag, value: &Json) -> (r: Option<ShinDensenClientAction>)
    ensures
        match r {
            Some(action) => event_of(tag, value@) == Some(action@),
            None => event_of(tag, value@) is None,
        },
{
    match tag {
        RequestTag::Authenticate => match AuthResponse::from_json(value) {
            Some(a) => Some(ShinDensenClientAction::Token(a.token)),
            None => None,
        },
        RequestTag::ListChats => match chats_from(value) {
            Some(chats) => Some(ShinDensenClientAction::Chats(chats)),
            None => None,
        },
        RequestTag::GetHistory => match GetHistoryResponse::from_json(value) {
            Some(h) => Some(ShinDensenClientAction::History(h)),
            None => None,
        },
        RequestTag::SearchUser => match UserInfoResponse::from_json(value) {
            Some(u) => Some(ShinDensenClientAction::UserSearchResponse(u)),
            None => None,
        },
        RequestTag::GetUserById => match UserInfoResponse::from_json(value) {
            Some(u) => Some(ShinDensenClientAction::UserInfo(u)),
            None => None,
        },
        RequestTag::InitiateChat => match InitiateChatResponse::from_json(value) {
            Some(r) => Some(ShinDensenClientAction::InitiateChat(r)),
            None => None,
        },
    }
}

/// Decodes a body text, given what the JSON reader made of it.
pub fn decode_reading(tag: RequestTag, text: String, reading: Result<Json, String>) -> (r: Result<
    ShinDensenClientAction,
    Failure,
>)
    ensures
        outcome_view(r) == reading_outcome(tag, text@, reading_view(reading)),
{
    match reading {
        Err(cause) => Err(Failure::DecodeError { operation: Some(tag), raw_body: text, cause }),
        Ok(value) => match event_from(tag, &value) {
            Some(action) => Ok(action),
            None => Err(
                Failure::DecodeError {
                    operation: Some(tag),
                    raw_body: text,
                    cause: String::from_str("body does not have the expected shape"),
                },
            ),
        },
    }
}

/// Turns bytes into text with `String::from_utf8`, which succeeds exactly on
/// well-formed UTF-8 and then yields the text that the bytes encode.
#[verifier::external_body]
fn text_from_utf8(bytes: Vec<u8>) -> (r: Option<String>)
    ensures
        r is Some <==> valid_utf8(bytes@),
        r matches Some(text) ==> encode_utf8(text@) == bytes@,
{
    String::from_utf8(bytes).ok()
}

/// Decodes the answer to a request.
pub fn decode(tag: RequestTag, status: u16, body: Vec<u8>) -> (r: Result<
    ShinDensenClientAction,
    Failure,
>)
    ensures
        outcome_view(r) == decode_outcome(tag, status, body@),
{
    let lookup = match tag {
        RequestTag::SearchUser => true,
        RequestTag::GetUserById => true,
        _ => false,
    };
    if lookup && status == 404 {
        return Ok(ShinDensenClientAction::UserNotFound);
    }
    if status < 200 || status > 299 {
        return Err(Failure::ServerError { status, operation: tag });
    }
    match text_from_utf8(body) {
        None => Err(Failure::EncodingError { operation: tag }),
        Some(text) => {
            proof {
                encode_utf8_decode_utf8(text@);
            }
            let outcome = read(text.as_str());
            decode_reading(tag, text, outcome)
        },
    }
}

} // verus!

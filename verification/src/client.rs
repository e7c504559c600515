//! The session client: it issues tagged requests, resolves their answers,
//! gathers streamed bodies and keeps the socket session alive. It performs no
//! I/O: what has to happen on the network is returned as [`Effect`]s.

use crate::decoder::{
    decode, decode_outcome, failure_event, outcome_view, Failure, FailureView,
};
use crate::encode::{auth_json, initiate_by_id_json, initiate_json, message_json};
use crate::json::{read, reading};
use crate::reassembler::{buffered_in, StreamReassembler};
use crate::request::{
    Handshake, HandshakeView, HttpCall, HttpCallView, HttpMethod, RequestTag,
    TagRegistry, Ticket,
};
use crate::socket::{
    frames_view, message_event, message_event_from, session_view, socket_closed,
    socket_closed_event, socket_error, socket_error_event, FrameView, SocketFrame, SocketPhase, SocketSession, SocketSessionView,
};
use crate::text::{decimal, decimal_text, digits, digits_text};
use crate::wire::{
    text_of, ActionView, AuthRequestPayload, ChatMessagePayload, ChatMessagePayloadView,
    FilePayload, FilePayloadView, InitiateChatByIdPayload, InitiateChatPayload,
    ShinDensenClientAction,
};
use vstd::prelude::*;
use vstd::string::*;

verus! {

/// Something for the embedding application to do.
#[derive(Clone, Debug, PartialEq)]
pub enum Effect {
    /// Deliver an event to the application.
    Emit(ShinDensenClientAction),
    /// Make an HTTP call.
    Http(HttpCall),
    /// Open the socket, in place of the one that is open, if any.
    OpenSocket(Handshake),
    /// Send a text on the socket.
    SendSocket(String),
}

/// What [`Effect`] holds, with texts and lists as sequences.
pub enum EffectView {
    Emit(ActionView),
    Http(HttpCallView),
    OpenSocket(HandshakeView),
    SendSocket(Seq<char>),
}

impl View for Effect {
    type V = EffectView;

    open spec fn view(&self) -> EffectView {
        match self {
            Effect::Emit(action) => EffectView::Emit(action@),
            Effect::Http(call) => EffectView::Http(call@),
            Effect::OpenSocket(handshake) => EffectView::OpenSocket(handshake@),
            Effect::SendSocket(text) => EffectView::SendSocket(text@),
        }
    }
}

/// Views of a list of effects, in order.
pub open spec fn effects_view(effects: Seq<Effect>) -> Seq<EffectView> {
    effects.map_values(|e: Effect| e@)
}

/// What became of a network event: the ticket of the request that it ended,
/// if it ended one, and what has to happen next.
#[derive(Clone, Debug, PartialEq)]
pub struct Resolution {
    pub ticket: Option<Ticket>,
    pub effects: Vec<Effect>,
}

/// What [`Resolution`] holds, with texts and lists as sequences.
pub struct ResolutionView {
    pub ticket: Option<Ticket>,
    pub effects: Seq<EffectView>,
}

impl View for Resolution {
    type V = ResolutionView;

    open spec fn view(&self) -> ResolutionView {
        ResolutionView { ticket: self.ticket, effects: effects_view(self.effects@) }
    }
}

/// Views of a list of resolutions, in order.
pub open spec fn resolutions_view(resolutions: Seq<Resolution>) -> Seq<ResolutionView> {
    resolutions.map_values(|r: Resolution| r@)
}

/// What the transport reports of a request.
#[derive(Clone, Debug, PartialEq)]
pub enum NetworkResponse {
    /// The whole answer.
    HttpResponse { status: u16, body: Vec<u8> },
    /// One chunk of a streamed body.
    HttpStreamResponse { chunk: Vec<u8> },
    /// The end of a streamed body.
    HttpStreamComplete { status: u16 },
    /// The request failed in the transport.
    HttpRequestError { detail: String },
    /// Anything else; it is passed over.
    Other,
}

/// What [`NetworkResponse`] holds, with texts and lists as sequences.
pub enum NetworkResponseView {
    HttpResponse { status: u16, body: Seq<u8> },
    HttpStreamResponse { chunk: Seq<u8> },
    HttpStreamComplete { status: u16 },
    HttpRequestError { detail: Seq<char> },
    Other,
}

impl View for NetworkResponse {
    type V = NetworkResponseView;

    open spec fn view(&self) -> NetworkResponseView {
        match self {
            NetworkResponse::HttpResponse { status, body } => NetworkResponseView::HttpResponse {
                status: *status,
                body: body@,
            },
            NetworkResponse::HttpStreamResponse { chunk } => NetworkResponseView::HttpStreamResponse {
                chunk: chunk@,
            },
            NetworkResponse::HttpStreamComplete { status } => NetworkResponseView::HttpStreamComplete {
                status: *status,
            },
            NetworkResponse::HttpRequestError { detail } => NetworkResponseView::HttpRequestError {
                detail: detail@,
            },
            NetworkResponse::Other => NetworkResponseView::Other,
        }
    }
}

/// A report of the transport, with the identifier of the request it is about.
#[derive(Clone, Debug, PartialEq)]
pub struct NetworkEvent {
    pub request_id: u64,
    pub response: NetworkResponse,
}

/// What [`NetworkEvent`] holds, with texts and lists as sequences.
pub struct NetworkEventView {
    pub request_id: u64,
    pub response: NetworkResponseView,
}

impl View for NetworkEvent {
    type V = NetworkEventView;

    open spec fn view(&self) -> NetworkEventView {
        NetworkEventView { request_id: self.request_id, response: self.response@ }
    }
}

/// Views of a list of transport reports, in order.
pub open spec fn events_view(events: Seq<NetworkEvent>) -> Seq<NetworkEventView> {
    events.map_values(|e: NetworkEvent| e@)
}

/// The session client.
pub struct ShinDensenClient {
    api_url: String,
    ws_url: String,
    socket: Option<SocketSession>,
    token: Option<String>,
    registry: TagRegistry,
    streams: StreamReassembler,
}

/// What a client holds.
pub struct ClientView {
    pub api_url: Seq<char>,
    pub ws_url: Seq<char>,
    /// The live socket session; `None` is the closed state.
    pub socket: Option<SocketSessionView>,
    /// The credential; absent until a login succeeds.
    pub token: Option<Seq<char>>,
    /// The requests in flight.
    pub registry: Map<u64, Ticket>,
    /// The identifier that the next request gets.
    pub upcoming: u64,
    /// The partial bodies of the requests that are streaming.
    pub streams: Map<u64, Seq<u8>>,
}

impl View for ShinDensenClient {
    type V = ClientView;

    closed spec fn view(&self) -> ClientView {
        ClientView {
            api_url: self.api_url@,
            ws_url: self.ws_url@,
            socket: session_view(self.socket),
            token: text_of(self.token),
            registry: self.registry@,
            upcoming: self.registry.upcoming(),
            streams: self.streams@,
        }
    }
}

/// The header that carries the credential.
pub open spec fn bearer(token: Seq<char>) -> (Seq<char>, Seq<char>) {
    ("Authorization"@, "Bearer "@ + token)
}

/// The header that announces a JSON body.
pub open spec fn json_content() -> (Seq<char>, Seq<char>) {
    ("Content-Type"@, "application/json"@)
}

/// The headers of a request: the credential where there is one, and the
/// content type where there is a body.
pub open spec fn request_headers(token: Option<Seq<char>>, payload: Option<Seq<char>>) -> Seq<
    (Seq<char>, Seq<char>),
> {
    let credential = match token {
        Some(t) => seq![bearer(t)],
        None => Seq::empty(),
    };
    let content = match payload {
        Some(_) => seq![json_content()],
        None => Seq::empty(),
    };
    credential + content
}

/// The call for an operation on the path `suffix`: a `POST` where there is a
/// body, a `GET` where there is none.
pub open spec fn request_call(c: ClientView, suffix: Seq<char>, payload: Option<Seq<char>>)
    -> HttpCallView {
    HttpCallView {
        request_id: c.upcoming,
        method: if payload is Some {
            HttpMethod::Post
        } else {
            HttpMethod::Get
        },
        url: c.api_url + "/"@ + suffix,
        headers: request_headers(c.token, payload),
        body: payload,
    }
}

/// Whether a request identifier can be allocated.
pub open spec fn has_room(c: ClientView) -> bool {
    c.upcoming < u64::MAX && !c.registry.contains_key(c.upcoming)
}

/// Whether the client lets a request for the operation out: every operation
/// but the login needs the credential, and all need a request identifier.
pub open spec fn can_issue(c: ClientView, tag: RequestTag) -> bool {
    (tag is Authenticate || c.token is Some) && has_room(c)
}

/// Why a request was not let out.
pub open spec fn refusal(c: ClientView, tag: RequestTag) -> FailureView {
    if !(tag is Authenticate) && c.token is None {
        FailureView::Error { text: "credential is absent"@ }
    } else {
        FailureView::Error { text: "request identifiers are used up"@ }
    }
}

/// The client after a request was let out under `ticket`.
pub open spec fn issued(c: ClientView, ticket: Ticket) -> ClientView {
    ClientView {
        registry: c.registry.insert(c.upcoming, ticket),
        upcoming: (c.upcoming + 1) as u64,
        ..c
    }
}

/// What asking for a request does: the client afterwards, and the call or
/// the refusal.
pub open spec fn sent(
    c: ClientView,
    ticket: Ticket,
    suffix: Seq<char>,
    payload: Option<Seq<char>>,
) -> (ClientView, Result<HttpCallView, FailureView>) {
    if can_issue(c, ticket.tag) {
        (issued(c, ticket), Ok(request_call(c, suffix, payload)))
    } else {
        (c, Err(refusal(c, ticket.tag)))
    }
}

/// View of the result of asking for a request.
pub open spec fn call_view(r: Result<HttpCall, Failure>) -> Result<HttpCallView, FailureView> {
    match r {
        Ok(call) => Ok(call@),
        Err(failure) => Err(failure@),
    }
}

/// The request that opens the socket with a credential.
pub open spec fn handshake(c: ClientView, token: Seq<char>) -> HandshakeView {
    HandshakeView { url: c.ws_url, headers: seq![bearer(token)] }
}

/// The client with a socket session that is being opened with `token`.
pub open spec fn opening(c: ClientView, token: Seq<char>) -> ClientView {
    ClientView { socket: Some(SocketSessionView { phase: SocketPhase::Opening, token }), ..c }
}

/// The text that goes out for a chat message.
pub open spec fn outgoing_message(chat_id: i64, text: Seq<char>) -> Seq<char> {
    message_json(
        ChatMessagePayloadView {
            chat_id,
            content: Some(text),
            files: Some(Seq::<FilePayloadView>::empty()),
        },
    )
}

/// What sending a chat message does: the text goes out when the socket is
/// open; otherwise the misuse is reported and nothing is queued.
pub open spec fn sending(c: ClientView, chat_id: i64, text: Seq<char>) -> EffectView {
    if c.socket matches Some(session) && session.phase is Open {
        EffectView::SendSocket(outgoing_message(chat_id, text))
    } else {
        EffectView::Emit(ActionView::Error("socket not open"@))
    }
}

/// What one inbound frame does: the client afterwards, the effects, and
/// whether the drain cycle goes on.
/// - Without a session nothing is drained.
/// - `Opened` marks the session open.
/// - A text frame is reported as the chat message in it, or as a decode
///   failure; the session stays.
/// - `Closed` reports the loss of the connection, reopens the socket with the
///   session's credential and ends the cycle.
/// - `Error` reports the failure with its detail, then reopens and ends the
///   cycle as `Closed` does.
///
/// Reopening is immediate and unconditional. Nothing here limits how often it
/// happens: a bounded backoff is the place to harden this, as an extension on
/// top of these steps.
pub open spec fn frame_step(c: ClientView, frame: FrameView) -> (ClientView, Seq<EffectView>, bool) {
    match c.socket {
        None => (c, Seq::empty(), false),
        Some(session) => match frame {
            FrameView::Opened => (
                ClientView {
                    socket: Some(
                        SocketSessionView { phase: SocketPhase::Open, token: session.token },
                    ),
                    ..c
                },
                Seq::empty(),
                true,
            ),
            FrameView::Message(text) => (
                c,
                seq![EffectView::Emit(message_event(text, reading(text)))],
                true,
            ),
            FrameView::Closed => (
                opening(c, session.token),
                seq![
                    EffectView::Emit(socket_closed_event()),
                    EffectView::OpenSocket(handshake(c, session.token)),
                ],
                false,
            ),
            FrameView::Error(detail) => (
                opening(c, session.token),
                seq![
                    EffectView::Emit(socket_error_event(detail)),
                    EffectView::OpenSocket(handshake(c, session.token)),
                ],
                false,
            ),
            FrameView::Other => (c, Seq::empty(), true),
        },
    }
}

/// What a drain cycle does with the frames that were polled: each frame in
/// turn, up to the first that ends the cycle; later frames are dropped.
pub open spec fn drained(c: ClientView, frames: Seq<FrameView>) -> (ClientView, Seq<EffectView>)
    decreases frames.len(),
{
    if frames.len() == 0 {
        (c, Seq::empty())
    } else {
        let step = frame_step(c, frames[0]);
        if step.2 {
            let rest = drained(step.0, frames.drop_first());
            (rest.0, step.1 + rest.1)
        } else {
            (step.0, step.1)
        }
    }
}

/// What the outcome of decoding does to a client that has taken the ticket
/// out of its registry: a token is stored and the socket is opened with it,
/// then `Authenticated` is reported; any other event is reported as it is; a
/// failure is reported as its event.
pub open spec fn concluded(
    c: ClientView,
    ticket: Ticket,
    outcome: Result<ActionView, FailureView>,
) -> (ClientView, ResolutionView) {
    match outcome {
        Ok(ActionView::Token(token)) => (
            ClientView { token: Some(token), ..opening(c, token) },
            ResolutionView {
                ticket: Some(ticket),
                effects: seq![
                    EffectView::OpenSocket(handshake(c, token)),
                    EffectView::Emit(ActionView::Authenticated),
                ],
            },
        ),
        Ok(event) => (
            c,
            ResolutionView { ticket: Some(ticket), effects: seq![EffectView::Emit(event)] },
        ),
        Err(failure) => (
            c,
            ResolutionView {
                ticket: Some(ticket),
                effects: seq![EffectView::Emit(failure_event(failure))],
            },
        ),
    }
}

/// A resolution that ends no request and asks for nothing.
pub open spec fn nothing_resolved() -> ResolutionView {
    ResolutionView { ticket: None, effects: Seq::empty() }
}

/// What an answer does. Whatever was gathered for the request is released.
/// An answer for a request that is not in flight is passed over; otherwise
/// the request leaves the registry and the answer is decoded under its
/// operation.
pub open spec fn resolved(c: ClientView, request_id: u64, status: u16, body: Seq<u8>) -> (
    ClientView,
    ResolutionView,
) {
    let released = ClientView { streams: c.streams.remove(request_id), ..c };
    if c.registry.contains_key(request_id) {
        let ticket = c.registry[request_id];
        concluded(
            ClientView { registry: c.registry.remove(request_id), ..released },
            ticket,
            decode_outcome(ticket.tag, status, body),
        )
    } else {
        (released, nothing_resolved())
    }
}

/// The event that reports a request that failed in the transport.
pub open spec fn request_error_event(request_id: u64, detail: Seq<char>) -> ActionView {
    ActionView::NetworkError(
        "HttpRequestError for request "@ + digits(request_id as nat) + ": "@ + detail,
    )
}

/// What a report of the transport does.
/// - A whole answer is resolved.
/// - A chunk is gathered, if its request is in flight.
/// - The end of a stream resolves what was gathered as the answer.
/// - A failed request leaves the registry, what was gathered for it is
///   released, and the failure is reported.
pub open spec fn advanced(c: ClientView, event: NetworkEventView) -> (ClientView, ResolutionView) {
    let id = event.request_id;
    match event.response {
        NetworkResponseView::HttpResponse { status, body } => resolved(c, id, status, body),
        NetworkResponseView::HttpStreamResponse { chunk } => if c.registry.contains_key(id) {
            (
                ClientView { streams: c.streams.insert(id, buffered_in(c.streams, id) + chunk), ..c },
                nothing_resolved(),
            )
        } else {
            (c, nothing_resolved())
        },
        NetworkResponseView::HttpStreamComplete { status } => resolved(
            c,
            id,
            status,
            buffered_in(c.streams, id),
        ),
        NetworkResponseView::HttpRequestError { detail } => (
            ClientView { registry: c.registry.remove(id), streams: c.streams.remove(id), ..c },
            ResolutionView {
                ticket: if c.registry.contains_key(id) {
                    Some(c.registry[id])
                } else {
                    None
                },
                effects: seq![EffectView::Emit(request_error_event(id, detail))],
            },
        ),
        NetworkResponseView::Other => (c, nothing_resolved()),
    }
}

/// What a batch of reports does: each in turn.
pub open spec fn advanced_all(c: ClientView, events: Seq<NetworkEventView>) -> (
    ClientView,
    Seq<ResolutionView>,
)
    decreases events.len(),
{
    if events.len() == 0 {
        (c, Seq::empty())
    } else {
        let before = advanced_all(c, events.drop_last());
        let last = advanced(before.0, events.last());
        (last.0, before.1.push(last.1))
    }
}

/// A copy of a run of bytes.
fn copy_bytes(bytes: &Vec<u8>) -> (r: Vec<u8>)
    ensures
        r@ == bytes@,
{
    let mut out: Vec<u8> = Vec::new();
    let mut at: usize = 0;
    while at < bytes.len()
        invariant
            at <= bytes.len(),
            out@ == bytes@.take(at as int),
        decreases bytes.len() - at,
    {
        out.push(bytes[at]);
        at = at + 1;
    }
    out
}

/// The header that carries the credential.
fn bearer_header(token: &String) -> (r: (String, String))
    ensures
        (r.0@, r.1@) == bearer(token@),
{
    let mut value = String::from_str("Bearer ");
    value.append(token.as_str());
    (String::from_str("Authorization"), value)
}

impl ShinDensenClient {
    /// A client for the backend at the two addresses, with no credential, no
    /// socket session and no request in flight.
    pub fn new(api_url: String, ws_url: String) -> (r: ShinDensenClient)
        ensures
            r@ == (ClientView {
                api_url: api_url@,
                ws_url: ws_url@,
                socket: None,
                token: None,
                registry: Map::empty(),
                upcoming: 0,
                streams: Map::empty(),
            }),
    {
        ShinDensenClient {
            api_url,
            ws_url,
            socket: None,
            token: None,
            registry: TagRegistry::new(),
            streams: StreamReassembler::new(),
        }
    }

    /// Whether a credential is stored.
    pub fn is_authenticated(&self) -> (r: bool)
        ensures
            r == self@.token is Some,
    {
        self.token.is_some()
    }

    /// Whether the socket session is open.
    pub fn is_socket_open(&self) -> (r: bool)
        ensures
            r == (self@.socket matches Some(session) && session.phase is Open),
    {
        match &self.socket {
            Some(session) => match session.phase {
                SocketPhase::Open => true,
                SocketPhase::Opening => false,
            },
            None => false,
        }
    }

    /// Whether there is a socket session, open or being opened.
    pub fn has_socket(&self) -> (r: bool)
        ensures
            r == self@.socket is Some,
    {
        self.socket.is_some()
    }

    /// The number of requests in flight.
    pub fn in_flight(&self) -> (r: usize)
        ensures
            r == self@.registry.len(),
    {
        self.registry.len()
    }

    /// The number of streamed bodies that are being gathered.
    pub fn streaming(&self) -> (r: usize)
        ensures
            r == self@.streams.len(),
    {
        self.streams.len()
    }

    /// Lets a request out on the path `suffix`, with a JSON body or without
    /// one, and records `ticket` for its answer.
    fn send_request(&mut self, suffix: &str, payload: Option<String>, ticket: Ticket) -> (r: Result<
        HttpCall,
        Failure,
    >)
        ensures
            (final(self)@, call_view(r)) == sent(old(self)@, ticket, suffix@, text_of(payload)),
    {
        let login = match ticket.tag {
            RequestTag::Authenticate => true,
            _ => false,
        };
        if !login && self.token.is_none() {
            return Err(Failure::Error { text: String::from_str("credential is absent") });
        }
        let request_id = match self.registry.issue(ticket) {
            Some(id) => id,
            None => {
                return Err(
                    Failure::Error { text: String::from_str("request identifiers are used up") },
                );
            },
        };
        let mut url = self.api_url.clone();
        url.append("/");
        url.append(suffix);
        let mut headers: Vec<(String, String)> = Vec::new();
        match &self.token {
            Some(token) => {
                headers.push(bearer_header(token));
            },
            None => {},
        }
        let method = match &payload {
            Some(_) => {
                headers.push(
                    (String::from_str("Content-Type"), String::from_str("application/json")),
                );
                HttpMethod::Post
            },
            None => HttpMethod::Get,
        };
        let call = HttpCall { request_id, method, url, headers, body: payload };
        assert(call@.headers =~= request_headers(old(self)@.token, text_of(payload)));
        Ok(call)
    }

    /// Opens the socket with a credential: the session is marked as being
    /// opened, and the handshake is handed out.
    fn open_socket(&mut self, token: String) -> (r: Handshake)
        ensures
            r@ == handshake(old(self)@, token@),
            final(self)@ == opening(old(self)@, token@),
    {
        let mut headers: Vec<(String, String)> = Vec::new();
        headers.push(bearer_header(&token));
        let r = Handshake { url: self.ws_url.clone(), headers };
        assert(r@.headers =~= seq![bearer(token@)]);
        self.socket = Some(SocketSession { phase: SocketPhase::Opening, token });
        r
    }

    /// Asks to log in under a user name.
    pub fn authorize(&mut self, user: String) -> (r: Result<HttpCall, Failure>)
        ensures
            (final(self)@, call_view(r)) == sent(
                old(self)@,
                Ticket { tag: RequestTag::Authenticate, user_id: None },
                "login"@,
                Some(auth_json(user@)),
            ),
    {
        let payload = AuthRequestPayload { username: user };
        let body = payload.to_json();
        self.send_request(
            "login",
            Some(body),
            Ticket { tag: RequestTag::Authenticate, user_id: None },
        )
    }

    /// Asks for the chat list.
    pub fn get_chats(&mut self) -> (r: Result<HttpCall, Failure>)
        ensures
            (final(self)@, call_view(r)) == sent(
                old(self)@,
                Ticket { tag: RequestTag::ListChats, user_id: None },
                "chats"@,
                None,
            ),
    {
        self.send_request("chats", None, Ticket { tag: RequestTag::ListChats, user_id: None })
    }

    /// Asks for the messages of a chat.
    pub fn get_history(&mut self, chat_id: i64) -> (r: Result<HttpCall, Failure>)
        ensures
            (final(self)@, call_view(r)) == sent(
                old(self)@,
                Ticket { tag: RequestTag::GetHistory, user_id: None },
                "chats/"@ + decimal(chat_id as int) + "/messages"@,
                None,
            ),
    {
        let mut suffix = String::from_str("chats/");
        let id = decimal_text(chat_id);
        suffix.append(id.as_str());
        suffix.append("/messages");
        self.send_request(
            suffix.as_str(),
            None,
            Ticket { tag: RequestTag::GetHistory, user_id: None },
        )
    }

    /// Looks a user up by name.
    pub fn user_search(&mut self, username: String) -> (r: Result<HttpCall, Failure>)
        ensures
            (final(self)@, call_view(r)) == sent(
                old(self)@,
                Ticket { tag: RequestTag::SearchUser, user_id: None },
                "users/"@ + username@,
                None,
            ),
    {
        let mut suffix = String::from_str("users/");
        suffix.append(username.as_str());
        self.send_request(
            suffix.as_str(),
            None,
            Ticket { tag: RequestTag::SearchUser, user_id: None },
        )
    }

    /// Looks a user up by identifier.
    pub fn user_get_by_id(&mut self, user_id: i64) -> (r: Result<HttpCall, Failure>)
        ensures
            (final(self)@, call_view(r)) == sent(
                old(self)@,
                Ticket { tag: RequestTag::GetUserById, user_id: Some(user_id) },
                "users/"@ + decimal(user_id as int),
                None,
            ),
    {
        let mut suffix = String::from_str("users/");
        let id = decimal_text(user_id);
        suffix.append(id.as_str());
        self.send_request(
            suffix.as_str(),
            None,
            Ticket { tag: RequestTag::GetUserById, user_id: Some(user_id) },
        )
    }

    /// Asks to open a chat with another user.
    pub fn initiate_chat(&mut self, target_username: String) -> (r: Result<HttpCall, Failure>)
        ensures
            (final(self)@, call_view(r)) == sent(
                old(self)@,
                Ticket { tag: RequestTag::InitiateChat, user_id: None },
                "chats/initiate"@,
                Some(initiate_json(target_username@)),
            ),
    {
        let payload = InitiateChatPayload { target_username };
        let body = payload.to_json();
        self.send_request(
            "chats/initiate",
            Some(body),
            Ticket { tag: RequestTag::InitiateChat, user_id: None },
        )
    }

    /// Asks to open a chat with another user, named by its identifier.
    pub fn initiate_chat_by_id(&mut self, target_id: i64) -> (r: Result<HttpCall, Failure>)
        ensures
            (final(self)@, call_view(r)) == sent(
                old(self)@,
                Ticket { tag: RequestTag::InitiateChat, user_id: None },
                "chats/initiate"@,
                Some(initiate_by_id_json(target_id)),
            ),
    {
        let payload = InitiateChatByIdPayload { target_id };
        let body = payload.to_json();
        self.send_request(
            "chats/initiate",
            Some(body),
            Ticket { tag: RequestTag::InitiateChat, user_id: None },
        )
    }

    /// Sends a chat message over the socket. The client is not changed.
    pub fn send_message(&mut self, chat_id: i64, text: String) -> (r: Effect)
        ensures
            r@ == sending(old(self)@, chat_id, text@),
            final(self)@ == old(self)@,
    {
        if self.is_socket_open() {
            let files: Vec<FilePayload> = Vec::new();
            let payload = ChatMessagePayload { chat_id, content: Some(text), files: Some(files) };
            assert(payload@.files == Some(Seq::<FilePayloadView>::empty()));
            Effect::SendSocket(payload.to_json())
        } else {
            Effect::Emit(ShinDensenClientAction::Error(String::from_str("socket not open")))
        }
    }

    /// Takes one inbound frame. Returns the effects and whether the drain
    /// cycle goes on.
    pub fn on_frame(&mut self, frame: &SocketFrame) -> (r: (Vec<Effect>, bool))
        ensures
            (final(self)@, effects_view(r.0@), r.1) == frame_step(old(self)@, frame@),
    {
        let mut effects: Vec<Effect> = Vec::new();
        let token = match &self.socket {
            Some(session) => session.token.clone(),
            None => {
                return (effects, false);
            },
        };
        match frame {
            SocketFrame::Opened => {
                self.socket = Some(SocketSession { phase: SocketPhase::Open, token });
                (effects, true)
            },
            SocketFrame::Message(text) => {
                let outcome = read(text.as_str());
                let event = message_event_from(text.clone(), outcome);
                effects.push(Effect::Emit(event));
                (effects, true)
            },
            SocketFrame::Closed => {
                effects.push(Effect::Emit(socket_closed()));
                let request = self.open_socket(token);
                effects.push(Effect::OpenSocket(request));
                (effects, false)
            },
            SocketFrame::Error(detail) => {
                effects.push(Effect::Emit(socket_error(detail.as_str())));
                let request = self.open_socket(token);
                effects.push(Effect::OpenSocket(request));
                (effects, false)
            },
            SocketFrame::Other => {
                (effects, true)
            },
        }
    }

    /// Runs one drain cycle on the frames that were polled from the socket.
    pub fn handle_signal(&mut self, frames: &Vec<SocketFrame>) -> (r: Vec<Effect>)
        ensures
            (final(self)@, effects_view(r@)) == drained(old(self)@, frames_view(frames@)),
    {
        let ghost start = self@;
        let ghost all = frames_view(frames@);
        let mut out: Vec<Effect> = Vec::new();
        let mut at: usize = 0;
        assert(all.skip(0) =~= all);
        while at < frames.len()
            invariant
                at <= frames.len(),
                start == old(self)@,
                all == frames_view(frames@),
                all.len() == frames@.len(),
                drained(start, all) == (
                    drained(self@, all.skip(at as int)).0,
                    effects_view(out@) + drained(self@, all.skip(at as int)).1,
                ),
            decreases frames.len() - at,
        {
            let (mut effects, go) = self.on_frame(&frames[at]);
            out.append(&mut effects);
            assert(all.skip(at as int).drop_first() =~= all.skip(at as int + 1));
            if !go {
                return out;
            }
            at = at + 1;
        }
        out
    }

    /// Acts on the outcome of decoding the answer to a request whose ticket
    /// has left the registry.
    pub fn conclude(&mut self, ticket: Ticket, outcome: Result<ShinDensenClientAction, Failure>)
        -> (r: Resolution)
        ensures
            (final(self)@, r@) == concluded(old(self)@, ticket, outcome_view(outcome)),
    {
        let mut effects: Vec<Effect> = Vec::new();
        match outcome {
            Ok(ShinDensenClientAction::Token(token)) => {
                self.token = Some(token.clone());
                let request = self.open_socket(token);
                effects.push(Effect::OpenSocket(request));
                effects.push(Effect::Emit(ShinDensenClientAction::Authenticated));
                assert(effects_view(effects@) =~= seq![
                    EffectView::OpenSocket(handshake(old(self)@, token@)),
                    EffectView::Emit(ActionView::Authenticated),
                ]);
            },
            Ok(event) => {
                effects.push(Effect::Emit(event));
                assert(effects_view(effects@) =~= seq![EffectView::Emit(event@)]);
            },
            Err(failure) => {
                let ghost view = failure@;
                effects.push(Effect::Emit(failure.into_action()));
                assert(effects_view(effects@) =~= seq![EffectView::Emit(failure_event(view))]);
            },
        }
        Resolution { ticket: Some(ticket), effects }
    }

    /// Takes the answer to a request. An answer for a request that is not in
    /// flight, such as a second delivery, is passed over.
    pub fn handle_response(&mut self, request_id: u64, status: u16, data: Vec<u8>) -> (r:
        Resolution)
        ensures
            (final(self)@, r@) == resolved(old(self)@, request_id, status, data@),
    {
        let _ = self.streams.complete(request_id, status);
        match self.registry.take(request_id) {
            Some(ticket) => {
                let outcome = decode(ticket.tag, status, data);
                self.conclude(ticket, outcome)
            },
            None => {
                let effects: Vec<Effect> = Vec::new();
                assert(effects_view(effects@) =~= Seq::<EffectView>::empty());
                assert(self@.registry =~= old(self)@.registry);
                Resolution { ticket: None, effects }
            },
        }
    }

    /// Takes one report of the transport.
    pub fn handle_network_event(&mut self, event: &NetworkEvent) -> (r: Resolution)
        ensures
            (final(self)@, r@) == advanced(old(self)@, event@),
    {
        let request_id = event.request_id;
        match &event.response {
            NetworkResponse::HttpResponse { status, body } => {
                self.handle_response(request_id, *status, copy_bytes(body))
            },
            NetworkResponse::HttpStreamResponse { chunk } => {
                if self.registry.contains(request_id) {
                    self.streams.append(request_id, copy_bytes(chunk));
                }
                let effects: Vec<Effect> = Vec::new();
                assert(effects_view(effects@) =~= Seq::<EffectView>::empty());
                Resolution { ticket: None, effects }
            },
            NetworkResponse::HttpStreamComplete { status } => {
                let body = self.streams.complete(request_id, *status);
                assert(self@.streams.remove(request_id) =~= old(self)@.streams.remove(request_id));
                self.handle_response(request_id, *status, body.bytes)
            },
            NetworkResponse::HttpRequestError { detail } => {
                let ticket = self.registry.take(request_id);
                let _ = self.streams.complete(request_id, 0);
                let mut text = String::from_str("HttpRequestError for request ");
                let id = digits_text(request_id);
                text.append(id.as_str());
                text.append(": ");
                text.append(detail.as_str());
                let mut effects: Vec<Effect> = Vec::new();
                effects.push(Effect::Emit(ShinDensenClientAction::NetworkError(text)));
                assert(effects_view(effects@) =~= seq![
                    EffectView::Emit(request_error_event(request_id, detail@)),
                ]);
                Resolution { ticket, effects }
            },
            NetworkResponse::Other => {
                let effects: Vec<Effect> = Vec::new();
                assert(effects_view(effects@) =~= Seq::<EffectView>::empty());
                Resolution { ticket: None, effects }
            },
        }
    }

    /// Takes a batch of reports of the transport, each in turn.
    pub fn handle_network_responses(&mut self, responses: &Vec<NetworkEvent>) -> (r: Vec<
        Resolution,
    >)
        ensures
            (final(self)@, resolutions_view(r@)) == advanced_all(
                old(self)@,
                events_view(responses@),
            ),
    {
        let ghost all = events_view(responses@);
        let mut out: Vec<Resolution> = Vec::new();
        let mut at: usize = 0;
        while at < responses.len()
            invariant
                at <= responses.len(),
                all == events_view(responses@),
                all.len() == responses@.len(),
                (self@, resolutions_view(out@)) == advanced_all(old(self)@, all.take(at as int)),
            decreases responses.len() - at,
        {
            let resolution = self.handle_network_event(&responses[at]);
            out.push(resolution);
            assert(all.take(at as int + 1).drop_last() =~= all.take(at as int));
            at = at + 1;
        }
        assert(all.take(at as int) =~= all);
        out
    }
}

} // verus!

//! The records that travel between the client and the chat backend, and the
//! events that the client reports upward.

use vstd::prelude::*;

verus! {

/// View of an optional text.
pub open spec fn text_of(o: Option<String>) -> Option<Seq<char>> {
    match o {
        Some(s) => Some(s@),
        None => None,
    }
}

/// Body of a login request.
#[derive(Clone, Debug, PartialEq)]
pub struct AuthRequestPayload {
    pub username: String,
}

/// A file attached to an outgoing message.
#[derive(Clone, Debug, PartialEq)]
pub struct FilePayload {
    pub _type: String,
    pub url: String,
    pub filename: String,
    pub mime_type: Option<String>,
    pub size_bytes: i64,
}

/// What [`FilePayload`] holds, with texts and lists as sequences.
pub struct FilePayloadView {
    pub _type: Seq<char>,
    pub url: Seq<char>,
    pub filename: Seq<char>,
    pub mime_type: Option<Seq<char>>,
    pub size_bytes: i64,
}

impl View for FilePayload {
    type V = FilePayloadView;

    open spec fn view(&self) -> FilePayloadView {
        FilePayloadView {
            _type: self._type@,
            url: self.url@,
            filename: self.filename@,
            mime_type: text_of(self.mime_type),
            size_bytes: self.size_bytes,
        }
    }
}

/// Views of a list of attached files.
pub open spec fn file_payloads_view(files: Seq<FilePayload>) -> Seq<FilePayloadView> {
    files.map_values(|f: FilePayload| f@)
}

/// An outgoing chat message, as sent over the socket.
#[derive(Clone, Debug, PartialEq)]
pub struct ChatMessagePayload {
    pub chat_id: i64,
    pub content: Option<String>,
    pub files: Option<Vec<FilePayload>>,
}

/// View of an optional list of attached files.
pub open spec fn optional_files_view(files: Option<Vec<FilePayload>>) -> Option<
    Seq<FilePayloadView>,
> {
    match files {
        Some(list) => Some(file_payloads_view(list@)),
        None => None,
    }
}

/// What [`ChatMessagePayload`] holds, with texts and lists as sequences.
pub struct ChatMessagePayloadView {
    pub chat_id: i64,
    pub content: Option<Seq<char>>,
    pub files: Option<Seq<FilePayloadView>>,
}

impl View for ChatMessagePayload {
    type V = ChatMessagePayloadView;

    open spec fn view(&self) -> ChatMessagePayloadView {
        ChatMessagePayloadView {
            chat_id: self.chat_id,
            content: text_of(self.content),
            files: optional_files_view(self.files),
        }
    }
}

/// Body of a request that opens a chat with another user.
#[derive(Clone, Debug, PartialEq)]
pub struct InitiateChatPayload {
    pub target_username: String,
}

/// Body of a request that opens a chat with another user, named by its
/// identifier.
#[derive(Clone, Debug, PartialEq)]
pub struct InitiateChatByIdPayload {
    pub target_id: i64,
}

/// Answer to a login request.
#[derive(Clone, Debug, PartialEq)]
pub struct AuthResponse {
    pub token: String,
}

/// What [`AuthResponse`] holds, with texts and lists as sequences.
pub struct AuthResponseView {
    pub token: Seq<char>,
}

impl View for AuthResponse {
    type V = AuthResponseView;

    open spec fn view(&self) -> AuthResponseView {
        AuthResponseView { token: self.token@ }
    }
}

/// Answer to a request that opens a chat.
#[derive(Clone, Debug, PartialEq)]
pub struct InitiateChatResponse {
    pub chat_id: i64,
    pub status: String,
}

/// What [`InitiateChatResponse`] holds, with texts and lists as sequences.
pub struct InitiateChatResponseView {
    pub chat_id: i64,
    pub status: Seq<char>,
}

impl View for InitiateChatResponse {
    type V = InitiateChatResponseView;

    open spec fn view(&self) -> InitiateChatResponseView {
        InitiateChatResponseView { chat_id: self.chat_id, status: self.status@ }
    }
}

/// What the backend knows of a user.
#[derive(Clone, Debug, PartialEq)]
pub struct UserInfoResponse {
    pub id: i64,
    pub username: String,
    pub display_name: Option<String>,
    pub bio: Option<String>,
    pub image_id: Option<i64>,
}

/// What [`UserInfoResponse`] holds, with texts and lists as sequences.
pub struct UserInfoView {
    pub id: i64,
    pub username: Seq<char>,
    pub display_name: Option<Seq<char>>,
    pub bio: Option<Seq<char>>,
    pub image_id: Option<i64>,
}

impl View for UserInfoResponse {
    type V = UserInfoView;

    open spec fn view(&self) -> UserInfoView {
        UserInfoView {
            id: self.id,
            username: self.username@,
            display_name: text_of(self.display_name),
            bio: text_of(self.bio),
            image_id: self.image_id,
        }
    }
}

/// A file attached to a received message.
#[derive(Clone, Debug, PartialEq)]
pub struct FileMetadata {
    pub id: i64,
    pub _type: String,
    pub url: String,
    pub filename: String,
    pub mime_type: Option<String>,
    pub size_bytes: i64,
    pub created_at: String,
}

/// What [`FileMetadata`] holds, with texts and lists as sequences.
pub struct FileMetadataView {
    pub id: i64,
    pub _type: Seq<char>,
    pub url: Seq<char>,
    pub filename: Seq<char>,
    pub mime_type: Option<Seq<char>>,
    pub size_bytes: i64,
    pub created_at: Seq<char>,
}

impl View for FileMetadata {
    type V = FileMetadataView;

    open spec fn view(&self) -> FileMetadataView {
        FileMetadataView {
            id: self.id,
            _type: self._type@,
            url: self.url@,
            filename: self.filename@,
            mime_type: text_of(self.mime_type),
            size_bytes: self.size_bytes,
            created_at: self.created_at@,
        }
    }
}

/// Views of a list of received files.
pub open spec fn files_view(files: Seq<FileMetadata>) -> Seq<FileMetadataView> {
    files.map_values(|f: FileMetadata| f@)
}

/// A chat message as the backend delivers it.
#[derive(Clone, Debug, PartialEq)]
pub struct ChatMessage {
    pub id: i64,
    pub chat_id: i64,
    pub sender_id: i64,
    pub content: Option<String>,
    pub timestamp: String,
    pub files: Vec<FileMetadata>,
}

/// What [`ChatMessage`] holds, with texts and lists as sequences.
pub struct ChatMessageView {
    pub id: i64,
    pub chat_id: i64,
    pub sender_id: i64,
    pub content: Option<Seq<char>>,
    pub timestamp: Seq<char>,
    pub files: Seq<FileMetadataView>,
}

impl View for ChatMessage {
    type V = ChatMessageView;

    open spec fn view(&self) -> ChatMessageView {
        ChatMessageView {
            id: self.id,
            chat_id: self.chat_id,
            sender_id: self.sender_id,
            content: text_of(self.content),
            timestamp: self.timestamp@,
            files: files_view(self.files@),
        }
    }
}

/// Views of a list of messages, in order.
pub open spec fn messages_view(messages: Seq<ChatMessage>) -> Seq<ChatMessageView> {
    messages.map_values(|m: ChatMessage| m@)
}

/// The messages of one chat, as a history request returns them.
#[derive(Clone, Debug, PartialEq)]
pub struct GetHistoryResponse {
    pub chat_id: i64,
    pub messages: Vec<ChatMessage>,
}

/// What [`GetHistoryResponse`] holds, with texts and lists as sequences.
pub struct HistoryView {
    pub chat_id: i64,
    pub messages: Seq<ChatMessageView>,
}

impl View for GetHistoryResponse {
    type V = HistoryView;

    open spec fn view(&self) -> HistoryView {
        HistoryView { chat_id: self.chat_id, messages: messages_view(self.messages@) }
    }
}

/// One chat of the chat list.
#[derive(Clone, Debug, PartialEq)]
pub struct ChatInfo {
    pub id: i64,
    pub name: Option<String>,
    pub chat_type: String,
    pub participants: Vec<i64>,
    pub created_at: String,
}

/// What [`ChatInfo`] holds, with texts and lists as sequences.
pub struct ChatInfoView {
    pub id: i64,
    pub name: Option<Seq<char>>,
    pub chat_type: Seq<char>,
    pub participants: Seq<i64>,
    pub created_at: Seq<char>,
}

impl View for ChatInfo {
    type V = ChatInfoView;

    open spec fn view(&self) -> ChatInfoView {
        ChatInfoView {
            id: self.id,
            name: text_of(self.name),
            chat_type: self.chat_type@,
            participants: self.participants@,
            created_at: self.created_at@,
        }
    }
}

/// Views of a chat list, in order.
pub open spec fn chats_view(chats: Seq<ChatInfo>) -> Seq<ChatInfoView> {
    chats.map_values(|c: ChatInfo| c@)
}

/// An event that the client reports to the application.
#[derive(Clone, Debug, PartialEq)]
pub enum ShinDensenClientAction {
    /// Login succeeded; the credential is stored and the socket is being
    /// opened.
    Authenticated,
    /// A message arrived, over the socket.
    NewMessage(ChatMessage),
    /// The chat list arrived.
    Chats(Vec<ChatInfo>),
    /// The messages of a chat arrived.
    History(GetHistoryResponse),
    /// The bearer token of a successful login, before it is stored.
    Token(String),
    /// A lookup by name found this user.
    UserSearchResponse(UserInfoResponse),
    /// A lookup by identifier found this user.
    UserInfo(UserInfoResponse),
    /// A lookup found no such user.
    UserNotFound,
    /// A chat was opened with another user.
    InitiateChat(InitiateChatResponse),
    /// A request could not be served, or the client was misused.
    Error(String),
    /// The transport failed.
    NetworkError(String),
    /// No event.
    Nothing,
}

/// What [`ShinDensenClientAction`] holds, with texts and lists as sequences.
pub enum ActionView {
    Authenticated,
    NewMessage(ChatMessageView),
    Chats(Seq<ChatInfoView>),
    History(HistoryView),
    Token(Seq<char>),
    UserSearchResponse(UserInfoView),
    UserInfo(UserInfoView),
    UserNotFound,
    InitiateChat(InitiateChatResponseView),
    Error(Seq<char>),
    NetworkError(Seq<char>),
    Nothing,
}

impl View for ShinDensenClientAction {
    type V = ActionView;

    open spec fn view(&self) -> ActionView {
        match self {
            ShinDensenClientAction::Authenticated => ActionView::Authenticated,
            ShinDensenClientAction::NewMessage(m) => ActionView::NewMessage(m@),
            ShinDensenClientAction::Chats(chats) => ActionView::Chats(chats_view(chats@)),
            ShinDensenClientAction::History(h) => ActionView::History(h@),
            ShinDensenClientAction::Token(t) => ActionView::Token(t@),
            ShinDensenClientAction::UserSearchResponse(u) => ActionView::UserSearchResponse(u@),
            ShinDensenClientAction::UserInfo(u) => ActionView::UserInfo(u@),
            ShinDensenClientAction::UserNotFound => ActionView::UserNotFound,
            ShinDensenClientAction::InitiateChat(r) => ActionView::InitiateChat(r@),
            ShinDensenClientAction::Error(text) => ActionView::Error(text@),
            ShinDensenClientAction::NetworkError(text) => ActionView::NetworkError(text@),
            ShinDensenClientAction::Nothing => ActionView::Nothing,
        }
    }
}

} // verus!

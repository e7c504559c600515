//! The shapes that the backend's answers must have, and the functions that
//! read typed records out of generic JSON values.
//!
//! A record is read from a JSON object. Every member of the object must be a
//! field of the record; a field that may be absent reads as `None` when it is
//! missing or `null`; any other field must be present with a value of its
//! type.

use crate::json::{
    lemma_list_model, lemma_record_names, list_model, member, record_model, same_text, Json,
    JsonModel,
};
use crate::wire::{
    chats_view, files_view, messages_view, text_of, AuthResponse, AuthResponseView, ChatInfo,
    ChatInfoView, ChatMessage, ChatMessageView, FileMetadata, FileMetadataView,
    GetHistoryResponse, HistoryView, InitiateChatResponse, InitiateChatResponseView,
    UserInfoResponse, UserInfoView,
};
use vstd::prelude::*;

verus! {

/// The integer that a JSON value stands for, if it is one that fits `i64`.
pub open spec fn int_of(j: JsonModel) -> Option<i64> {
    match j {
        JsonModel::Signed(v) => Some(v),
        JsonModel::Unsigned(v) => if v <= 0x7fff_ffff_ffff_ffff {
            Some(v as i64)
        } else {
            None
        },
        _ => None,
    }
}

/// The text that a JSON value stands for, if it is a string.
pub open spec fn text_in(j: JsonModel) -> Option<Seq<char>> {
    match j {
        JsonModel::Text(t) => Some(t),
        _ => None,
    }
}

/// A required integer field.
pub open spec fn int_field(m: Map<Seq<char>, JsonModel>, key: Seq<char>) -> Option<i64> {
    if m.contains_key(key) {
        int_of(m[key])
    } else {
        None
    }
}

/// A required text field.
pub open spec fn text_field(m: Map<Seq<char>, JsonModel>, key: Seq<char>) -> Option<Seq<char>> {
    if m.contains_key(key) {
        text_in(m[key])
    } else {
        None
    }
}

/// An integer field that may be missing or `null`. The outer `None` means
/// that the member is there with a value of another type.
pub open spec fn optional_int_field(m: Map<Seq<char>, JsonModel>, key: Seq<char>) -> Option<
    Option<i64>,
> {
    if !m.contains_key(key) || m[key] is Null {
        Some(None)
    } else {
        match int_of(m[key]) {
            Some(v) => Some(Some(v)),
            None => None,
        }
    }
}

/// A text field that may be missing or `null`. The outer `None` means that
/// the member is there with a value of another type.
pub open spec fn optional_text_field(m: Map<Seq<char>, JsonModel>, key: Seq<char>) -> Option<
    Option<Seq<char>>,
> {
    if !m.contains_key(key) || m[key] is Null {
        Some(None)
    } else {
        match text_in(m[key]) {
            Some(t) => Some(Some(t)),
            None => None,
        }
    }
}

/// A required array field.
pub open spec fn list_field(m: Map<Seq<char>, JsonModel>, key: Seq<char>) -> Option<
    Seq<JsonModel>,
> {
    if m.contains_key(key) {
        match m[key] {
            JsonModel::List(items) => Some(items),
            _ => None,
        }
    } else {
        None
    }
}

/// Whether every member of an object has one of the allowed names.
pub open spec fn only_names(m: Map<Seq<char>, JsonModel>, allowed: Seq<Seq<char>>) -> bool {
    forall|k: Seq<char>| m.contains_key(k) ==> allowed.contains(k)
}

/// Views of a list of field names.
pub open spec fn names_view(names: Seq<&'static str>) -> Seq<Seq<char>> {
    names.map_values(|s: &'static str| s@)
}

/// The names that the members of a login answer may have.
pub open spec fn auth_names() -> Seq<Seq<char>> {
    seq!["token"@]
}

/// The login answer in a JSON value.
pub open spec fn auth_of(j: JsonModel) -> Option<AuthResponseView> {
    match j {
        JsonModel::Record(m) => if only_names(m, auth_names()) && text_field(m, "token"@) is Some {
            Some(AuthResponseView { token: text_field(m, "token"@)->0 })
        } else {
            None
        },
        _ => None,
    }
}

/// The names that the members of the answer to an initiate-chat request may have.
pub open spec fn initiate_names() -> Seq<Seq<char>> {
    seq!["chat_id"@, "status"@]
}

/// The answer to an initiate-chat request in a JSON value.
pub open spec fn initiate_of(j: JsonModel) -> Option<InitiateChatResponseView> {
    match j {
        JsonModel::Record(m) => if only_names(m, initiate_names()) && int_field(m, "chat_id"@) is Some
            && text_field(m, "status"@) is Some {
            Some(
                InitiateChatResponseView {
                    chat_id: int_field(m, "chat_id"@)->0,
                    status: text_field(m, "status"@)->0,
                },
            )
        } else {
            None
        },
        _ => None,
    }
}

/// The names that the members of a user record may have.
pub open spec fn user_names() -> Seq<Seq<char>> {
    seq!["id"@, "username"@, "display_name"@, "bio"@, "image_id"@]
}

/// The user record in a JSON value.
pub open spec fn user_of(j: JsonModel) -> Option<UserInfoView> {
    match j {
        JsonModel::Record(m) => if only_names(m, user_names()) && int_field(m, "id"@) is Some
            && text_field(m, "username"@) is Some && optional_text_field(m, "display_name"@) is Some
            && optional_text_field(m, "bio"@) is Some && optional_int_field(m, "image_id"@) is Some {
            Some(
                UserInfoView {
                    id: int_field(m, "id"@)->0,
                    username: text_field(m, "username"@)->0,
                    display_name: optional_text_field(m, "display_name"@)->0,
                    bio: optional_text_field(m, "bio"@)->0,
                    image_id: optional_int_field(m, "image_id"@)->0,
                },
            )
        } else {
            None
        },
        _ => None,
    }
}

/// The names that the members of a file record may have.
pub open spec fn file_names() -> Seq<Seq<char>> {
    seq!["id"@, "type"@, "url"@, "filename"@, "mime_type"@, "size_bytes"@, "created_at"@]
}

/// The file record in a JSON value. The field `_type` travels as `type`.
pub open spec fn file_of(j: JsonModel) -> Option<FileMetadataView> {
    match j {
        JsonModel::Record(m) => if only_names(m, file_names()) && int_field(m, "id"@) is Some
            && text_field(m, "type"@) is Some && text_field(m, "url"@) is Some && text_field(
            m,
            "filename"@,
        ) is Some && optional_text_field(m, "mime_type"@) is Some && int_field(m, "size_bytes"@) is Some
            && text_field(m, "created_at"@) is Some {
            Some(
                FileMetadataView {
                    id: int_field(m, "id"@)->0,
                    _type: text_field(m, "type"@)->0,
                    url: text_field(m, "url"@)->0,
                    filename: text_field(m, "filename"@)->0,
                    mime_type: optional_text_field(m, "mime_type"@)->0,
                    size_bytes: int_field(m, "size_bytes"@)->0,
                    created_at: text_field(m, "created_at"@)->0,
                },
            )
        } else {
            None
        },
        _ => None,
    }
}

/// The file records in the items of an array: all of them, or none if one
/// item is no file record.
pub open spec fn files_of(items: Seq<JsonModel>) -> Option<Seq<FileMetadataView>> {
    if forall|i: int| 0 <= i < items.len() ==> (#[trigger] file_of(items[i])) is Some {
        Some(Seq::new(items.len(), |i: int| file_of(items[i])->0))
    } else {
        None
    }
}

/// The names that the members of a chat message may have.
pub open spec fn message_names() -> Seq<Seq<char>> {
    seq!["id"@, "chat_id"@, "sender_id"@, "content"@, "timestamp"@, "files"@]
}

/// The files of a message object, if its `files` member is an array of file
/// records.
pub open spec fn files_field(m: Map<Seq<char>, JsonModel>) -> Option<Seq<FileMetadataView>> {
    match list_field(m, "files"@) {
        Some(items) => files_of(items),
        None => None,
    }
}

/// The chat message in a JSON value.
pub open spec fn message_of(j: JsonModel) -> Option<ChatMessageView> {
    match j {
        JsonModel::Record(m) => if only_names(m, message_names()) && int_field(m, "id"@) is Some
            && int_field(m, "chat_id"@) is Some && int_field(m, "sender_id"@) is Some
            && optional_text_field(m, "content"@) is Some && text_field(m, "timestamp"@) is Some
            && files_field(m) is Some {
            Some(
                ChatMessageView {
                    id: int_field(m, "id"@)->0,
                    chat_id: int_field(m, "chat_id"@)->0,
                    sender_id: int_field(m, "sender_id"@)->0,
                    content: optional_text_field(m, "content"@)->0,
                    timestamp: text_field(m, "timestamp"@)->0,
                    files: files_field(m)->0,
                },
            )
        } else {
            None
        },
        _ => None,
    }
}

/// The chat messages in the items of an array: all of them, or none if one
/// item is no chat message.
pub open spec fn messages_of(items: Seq<JsonModel>) -> Option<Seq<ChatMessageView>> {
    if forall|i: int| 0 <= i < items.len() ==> (#[trigger] message_of(items[i])) is Some {
        Some(Seq::new(items.len(), |i: int| message_of(items[i])->0))
    } else {
        None
    }
}

/// The names that the members of a history answer may have.
pub open spec fn history_names() -> Seq<Seq<char>> {
    seq!["chat_id"@, "messages"@]
}

/// The messages of a history object, if its `messages` member is an array of
/// chat messages.
pub open spec fn messages_field(m: Map<Seq<char>, JsonModel>) -> Option<Seq<ChatMessageView>> {
    match list_field(m, "messages"@) {
        Some(items) => messages_of(items),
        None => None,
    }
}

/// The history answer in a JSON value.
pub open spec fn history_of(j: JsonModel) -> Option<HistoryView> {
    match j {
        JsonModel::Record(m) => if only_names(m, history_names()) && int_field(m, "chat_id"@) is Some
            && messages_field(m) is Some {
            Some(HistoryView { chat_id: int_field(m, "chat_id"@)->0, messages: messages_field(m)->0 })
        } else {
            None
        },
        _ => None,
    }
}

/// The integers in the items of an array: all of them, or none if one item is
/// no integer.
pub open spec fn ints_of(items: Seq<JsonModel>) -> Option<Seq<i64>> {
    if forall|i: int| 0 <= i < items.len() ==> (#[trigger] int_of(items[i])) is Some {
        Some(Seq::new(items.len(), |i: int| int_of(items[i])->0))
    } else {
        None
    }
}

/// The names that the members of a chat record may have.
pub open spec fn chat_names() -> Seq<Seq<char>> {
    seq!["id"@, "name"@, "chat_type"@, "participants"@, "created_at"@]
}

/// The participants of a chat object, if its `participants` member is an
/// array of integers.
pub open spec fn participants_field(m: Map<Seq<char>, JsonModel>) -> Option<Seq<i64>> {
    match list_field(m, "participants"@) {
        Some(items) => ints_of(items),
        None => None,
    }
}

/// The chat record in a JSON value.
pub open spec fn chat_of(j: JsonModel) -> Option<ChatInfoView> {
    match j {
        JsonModel::Record(m) => if only_names(m, chat_names()) && int_field(m, "id"@) is Some
            && optional_text_field(m, "name"@) is Some && text_field(m, "chat_type"@) is Some
            && participants_field(m) is Some && text_field(m, "created_at"@) is Some {
            Some(
                ChatInfoView {
                    id: int_field(m, "id"@)->0,
                    name: optional_text_field(m, "name"@)->0,
                    chat_type: text_field(m, "chat_type"@)->0,
                    participants: participants_field(m)->0,
                    created_at: text_field(m, "created_at"@)->0,
                },
            )
        } else {
            None
        },
        _ => None,
    }
}

/// The chat records in the items of an array: all of them, or none if one
/// item is no chat record.
pub open spec fn chats_of(items: Seq<JsonModel>) -> Option<Seq<ChatInfoView>> {
    if forall|i: int| 0 <= i < items.len() ==> (#[trigger] chat_of(items[i])) is Some {
        Some(Seq::new(items.len(), |i: int| chat_of(items[i])->0))
    } else {
        None
    }
}

/// The chat list in a JSON value.
pub open spec fn chat_list_of(j: JsonModel) -> Option<Seq<ChatInfoView>> {
    match j {
        JsonModel::List(items) => chats_of(items),
        _ => None,
    }
}

/// Whether `name` is one of `allowed`.
fn is_allowed(name: &String, allowed: &Vec<&'static str>) -> (r: bool)
    ensures
        r == names_view(allowed@).contains(name@),
{
    let mut at: usize = 0;
    while at < allowed.len()
        invariant
            at <= allowed.len(),
            forall|k: int| 0 <= k < at ==> (#[trigger] allowed@[k])@ != name@,
        decreases allowed.len() - at,
    {
        if same_text(name, allowed[at]) {
            assert(names_view(allowed@)[at as int] == name@);
            return true;
        }
        at = at + 1;
    }
    assert forall|k: int| 0 <= k < names_view(allowed@).len() implies names_view(allowed@)[k]
        != name@ by {
        assert(names_view(allowed@)[k] == allowed@[k]@);
    }
    false
}

/// Whether every member has one of the allowed names.
fn only_known(members: &Vec<(String, Json)>, allowed: &Vec<&'static str>) -> (r: bool)
    ensures
        r == only_names(record_model(members@), names_view(allowed@)),
{
    let mut at: usize = 0;
    while at < members.len()
        invariant
            at <= members.len(),
            forall|k: int|
                0 <= k < at ==> names_view(allowed@).contains((#[trigger] members@[k]).0@),
        decreases members.len() - at,
    {
        if !is_allowed(&members[at].0, allowed) {
            proof {
                lemma_record_names(members@, members@[at as int].0@);
            }
            return false;
        }
        at = at + 1;
    }
    proof {
        assert forall|k: Seq<char>| record_model(members@).contains_key(k) implies names_view(
            allowed@,
        ).contains(k) by {
            lemma_record_names(members@, k);
            let i = choose|i: int| 0 <= i < members@.len() && (#[trigger] members@[i]).0@ == k;
        }
    }
    true
}

/// The integer in a value, if it is one that fits `i64`.
fn int_in(value: &Json) -> (r: Option<i64>)
    ensures
        r == int_of(value@),
{
    match value {
        Json::Signed(v) => Some(*v),
        Json::Unsigned(v) => {
            if *v <= 0x7fff_ffff_ffff_ffff {
                Some(*v as i64)
            } else {
                None
            }
        },
        _ => None,
    }
}

/// Reads a required integer field.
fn int_member(members: &Vec<(String, Json)>, key: &str) -> (r: Option<i64>)
    ensures
        r == int_field(record_model(members@), key@),
{
    match member(members, key) {
        Some(value) => int_in(value),
        None => None,
    }
}

/// Reads a required text field.
fn text_member(members: &Vec<(String, Json)>, key: &str) -> (r: Option<String>)
    ensures
        text_of(r) == text_field(record_model(members@), key@),
{
    match member(members, key) {
        Some(value) => match value {
            Json::Text(t) => Some(t.clone()),
            _ => None,
        },
        None => None,
    }
}

/// Reads an integer field that may be missing or `null`.
fn optional_int_member(members: &Vec<(String, Json)>, key: &str) -> (r: Option<Option<i64>>)
    ensures
        r == optional_int_field(record_model(members@), key@),
{
    match member(members, key) {
        Some(value) => match value {
            Json::Null => Some(None),
            _ => match int_in(value) {
                Some(v) => Some(Some(v)),
                None => None,
            },
        },
        None => Some(None),
    }
}

/// View of the result of reading an optional text field.
pub open spec fn optional_text_view(r: Option<Option<String>>) -> Option<Option<Seq<char>>> {
    match r {
        Some(inner) => Some(text_of(inner)),
        None => None,
    }
}

/// Reads a text field that may be missing or `null`.
fn optional_text_member(members: &Vec<(String, Json)>, key: &str) -> (r: Option<Option<String>>)
    ensures
        optional_text_view(r) == optional_text_field(record_model(members@), key@),
{
    match member(members, key) {
        Some(value) => match value {
            Json::Null => Some(None),
            Json::Text(t) => Some(Some(t.clone())),
            _ => None,
        },
        None => Some(None),
    }
}

/// Reads a required array field.
fn list_member<'a>(members: &'a Vec<(String, Json)>, key: &str) -> (r: Option<&'a Vec<Json>>)
    ensures
        match r {
            Some(items) => list_field(record_model(members@), key@) == Some(list_model(items@)),
            None => list_field(record_model(members@), key@) is None,
        },
{
    match member(members, key) {
        Some(value) => match value {
            Json::List(items) => Some(items),
            _ => None,
        },
        None => None,
    }
}

impl AuthResponse {
    /// Reads a login answer.
    pub fn from_json(value: &Json) -> (r: Option<AuthResponse>)
        ensures
            match r {
                Some(a) => auth_of(value@) == Some(a@),
                None => auth_of(value@) is None,
            },
    {
        match value {
            Json::Record(members) => {
                let allowed = vec!["token"];
                assert(names_view(allowed@) =~= auth_names());
                if !only_known(members, &allowed) {
                    return None;
                }
                let token = text_member(members, "token")?;
                Some(AuthResponse { token })
            },
            _ => None,
        }
    }
}

impl InitiateChatResponse {
    /// Reads the answer to an initiate-chat request.
    pub fn from_json(value: &Json) -> (r: Option<InitiateChatResponse>)
        ensures
            match r {
                Some(a) => initiate_of(value@) == Some(a@),
                None => initiate_of(value@) is None,
            },
    {
        match value {
            Json::Record(members) => {
                let allowed = vec!["chat_id", "status"];
                assert(names_view(allowed@) =~= initiate_names());
                if !only_known(members, &allowed) {
                    return None;
                }
                let chat_id = int_member(members, "chat_id")?;
                let status = text_member(members, "status")?;
                Some(InitiateChatResponse { chat_id, status })
            },
            _ => None,
        }
    }
}

impl UserInfoResponse {
    /// Reads a user record.
    pub fn from_json(value: &Json) -> (r: Option<UserInfoResponse>)
        ensures
            match r {
                Some(a) => user_of(value@) == Some(a@),
                None => user_of(value@) is None,
            },
    {
        match value {
            Json::Record(members) => {
                let allowed = vec!["id", "username", "display_name", "bio", "image_id"];
                assert(names_view(allowed@) =~= user_names());
                if !only_known(members, &allowed) {
                    return None;
                }
                let id = int_member(members, "id")?;
                let username = text_member(members, "username")?;
                let display_name = optional_text_member(members, "display_name")?;
                let bio = optional_text_member(members, "bio")?;
                let image_id = optional_int_member(members, "image_id")?;
                Some(UserInfoResponse { id, username, display_name, bio, image_id })
            },
            _ => None,
        }
    }
}

impl FileMetadata {
    /// Reads a file record.
    pub fn from_json(value: &Json) -> (r: Option<FileMetadata>)
        ensures
            match r {
                Some(a) => file_of(value@) == Some(a@),
                None => file_of(value@) is None,
            },
    {
        match value {
            Json::Record(members) => {
                let allowed = vec![
                    "id",
                    "type",
                    "url",
                    "filename",
                    "mime_type",
                    "size_bytes",
                    "created_at",
                ];
                assert(names_view(allowed@) =~= file_names());
                if !only_known(members, &allowed) {
                    return None;
                }
                let id = int_member(members, "id")?;
                let _type = text_member(members, "type")?;
                let url = text_member(members, "url")?;
                let filename = text_member(members, "filename")?;
                let mime_type = optional_text_member(members, "mime_type")?;
                let size_bytes = int_member(members, "size_bytes")?;
                let created_at = text_member(members, "created_at")?;
                Some(FileMetadata { id, _type, url, filename, mime_type, size_bytes, created_at })
            },
            _ => None,
        }
    }
}

/// Reads the file records in the items of an array.
pub fn files_from(items: &Vec<Json>) -> (r: Option<Vec<FileMetadata>>)
    ensures
        match r {
            Some(files) => files_of(list_model(items@)) == Some(files_view(files@)),
            None => files_of(list_model(items@)) is None,
        },
{
    proof {
        lemma_list_model(items@);
    }
    let mut out: Vec<FileMetadata> = Vec::new();
    let mut at: usize = 0;
    while at < items.len()
        invariant
            at <= items.len(),
            out@.len() == at,
            list_model(items@).len() == items@.len(),
            forall|k: int| 0 <= k < items@.len() ==> list_model(items@)[k] == (#[trigger] items@[k])@,
            forall|k: int|
                0 <= k < at ==> file_of(list_model(items@)[k]) == Some((#[trigger] out@[k])@),
        decreases items.len() - at,
    {
        match FileMetadata::from_json(&items[at]) {
            Some(file) => {
                out.push(file);
            },
            None => {
                return None;
            },
        }
        at = at + 1;
    }
    proof {
        let models = list_model(items@);
        assert forall|i: int| 0 <= i < models.len() implies (#[trigger] file_of(models[i])) is Some by {
            assert(file_of(models[i]) == Some(out@[i]@));
        }
    }
    Some(out)
}

impl ChatMessage {
    /// Reads a chat message.
    pub fn from_json(value: &Json) -> (r: Option<ChatMessage>)
        ensures
            match r {
                Some(a) => message_of(value@) == Some(a@),
                None => message_of(value@) is None,
            },
    {
        match value {
            Json::Record(members) => {
                let allowed = vec!["id", "chat_id", "sender_id", "content", "timestamp", "files"];
                assert(names_view(allowed@) =~= message_names());
                if !only_known(members, &allowed) {
                    return None;
                }
                let id = int_member(members, "id")?;
                let chat_id = int_member(members, "chat_id")?;
                let sender_id = int_member(members, "sender_id")?;
                let content = optional_text_member(members, "content")?;
                let timestamp = text_member(members, "timestamp")?;
                let items = list_member(members, "files")?;
                let files = files_from(items)?;
                Some(ChatMessage { id, chat_id, sender_id, content, timestamp, files })
            },
            _ => None,
        }
    }
}

/// Reads the chat messages in the items of an array.
pub fn messages_from(items: &Vec<Json>) -> (r: Option<Vec<ChatMessage>>)
    ensures
        match r {
            Some(messages) => messages_of(list_model(items@)) == Some(messages_view(messages@)),
            None => messages_of(list_model(items@)) is None,
        },
{
    proof {
        lemma_list_model(items@);
    }
    let mut out: Vec<ChatMessage> = Vec::new();
    let mut at: usize = 0;
    while at < items.len()
        invariant
            at <= items.len(),
            out@.len() == at,
            list_model(items@).len() == items@.len(),
            forall|k: int| 0 <= k < items@.len() ==> list_model(items@)[k] == (#[trigger] items@[k])@,
            forall|k: int|
                0 <= k < at ==> message_of(list_model(items@)[k]) == Some((#[trigger] out@[k])@),
        decreases items.len() - at,
    {
        match ChatMessage::from_json(&items[at]) {
            Some(message) => {
                out.push(message);
            },
            None => {
                return None;
            },
        }
        at = at + 1;
    }
    proof {
        let models = list_model(items@);
        assert forall|i: int| 0 <= i < models.len() implies (#[trigger] message_of(models[i])) is Some by {
            assert(message_of(models[i]) == Some(out@[i]@));
        }
    }
    Some(out)
}

impl GetHistoryResponse {
    /// Reads a history answer.
    pub fn from_json(value: &Json) -> (r: Option<GetHistoryResponse>)
        ensures
            match r {
                Some(a) => history_of(value@) == Some(a@),
                None => history_of(value@) is None,
            },
    {
        match value {
            Json::Record(members) => {
                let allowed = vec!["chat_id", "messages"];
                assert(names_view(allowed@) =~= history_names());
                if !only_known(members, &allowed) {
                    return None;
                }
                let chat_id = int_member(members, "chat_id")?;
                let items = list_member(members, "messages")?;
                let messages = messages_from(items)?;
                Some(GetHistoryResponse { chat_id, messages })
            },
            _ => None,
        }
    }
}

/// Reads the integers in the items of an array.
pub fn ints_from(items: &Vec<Json>) -> (r: Option<Vec<i64>>)
    ensures
        match r {
            Some(ints) => ints_of(list_model(items@)) == Some(ints@),
            None => ints_of(list_model(items@)) is None,
        },
{
    proof {
        lemma_list_model(items@);
    }
    let mut out: Vec<i64> = Vec::new();
    let mut at: usize = 0;
    while at < items.len()
        invariant
            at <= items.len(),
            out@.len() == at,
            list_model(items@).len() == items@.len(),
            forall|k: int| 0 <= k < items@.len() ==> list_model(items@)[k] == (#[trigger] items@[k])@,
            forall|k: int| 0 <= k < at ==> int_of(list_model(items@)[k]) == Some(#[trigger] out@[k]),
        decreases items.len() - at,
    {
        match int_in(&items[at]) {
            Some(v) => {
                out.push(v);
            },
            None => {
                return None;
            },
        }
        at = at + 1;
    }
    proof {
        let models = list_model(items@);
        assert forall|i: int| 0 <= i < models.len() implies (#[trigger] int_of(models[i])) is Some by {
            assert(int_of(models[i]) == Some(out@[i]));
        }
    }
    Some(out)
}

impl ChatInfo {
    /// Reads a chat record.
    pub fn from_json(value: &Json) -> (r: Option<ChatInfo>)
        ensures
            match r {
                Some(a) => chat_of(value@) == Some(a@),
                None => chat_of(value@) is None,
            },
    {
        match value {
            Json::Record(members) => {
                let allowed = vec!["id", "name", "chat_type", "participants", "created_at"];
                assert(names_view(allowed@) =~= chat_names());
                if !only_known(members, &allowed) {
                    return None;
                }
                let id = int_member(members, "id")?;
                let name = optional_text_member(members, "name")?;
                let chat_type = text_member(members, "chat_type")?;
                let items = list_member(members, "participants")?;
                let participants = ints_from(items)?;
                let created_at = text_member(members, "created_at")?;
                Some(ChatInfo { id, name, chat_type, participants, created_at })
            },
            _ => None,
        }
    }
}

/// Reads a chat list.
pub fn chats_from(value: &Json) -> (r: Option<Vec<ChatInfo>>)
    ensures
        match r {
            Some(chats) => chat_list_of(value@) == Some(chats_view(chats@)),
            None => chat_list_of(value@) is None,
        },
{
    match value {
        Json::List(items) => {
            proof {
                lemma_list_model(items@);
            }
            let mut out: Vec<ChatInfo> = Vec::new();
            let mut at: usize = 0;
            while at < items.len()
                invariant
                    at <= items.len(),
                    out@.len() == at,
                    value@ == JsonModel::List(list_model(items@)),
                    list_model(items@).len() == items@.len(),
                    forall|k: int|
                        0 <= k < items@.len() ==> list_model(items@)[k] == (#[trigger] items@[k])@,
                    forall|k: int|
                        0 <= k < at ==> chat_of(list_model(items@)[k]) == Some(
                            (#[trigger] out@[k])@,
                        ),
                decreases items.len() - at,
            {
                match ChatInfo::from_json(&items[at]) {
                    Some(chat) => {
                        out.push(chat);
                    },
                    None => {
                        return None;
                    },
                }
                at = at + 1;
            }
            proof {
                let models = list_model(items@);
                assert forall|i: int| 0 <= i < models.len() implies (#[trigger] chat_of(models[i])) is Some by {
                    assert(chat_of(models[i]) == Some(out@[i]@));
                }
            }
            Some(out)
        },
        _ => None,
    }
}

} // verus!

//! JSON text of the records that the client sends.

use crate::text::{decimal, decimal_text};
use crate::wire::{
    file_payloads_view, AuthRequestPayload, ChatMessagePayload, ChatMessagePayloadView,
    FilePayload, FilePayloadView, InitiateChatByIdPayload, InitiateChatPayload,
};
use makepad_micro_serde::SerJson;
use vstd::prelude::*;
use vstd::string::*;

verus! {

/// How one character stands inside a JSON string: line feed, carriage
/// return, tab, the zero character, the backslash and the double quote are
/// written with a backslash, every other character as it is.
pub open spec fn escaped_char(c: char) -> Seq<char> {
    if c == '\n' {
        seq!['\\', 'n']
    } else if c == '\r' {
        seq!['\\', 'r']
    } else if c == '\t' {
        seq!['\\', 't']
    } else if c == '\0' {
        seq!['\\', '0']
    } else if c == '\\' {
        seq!['\\', '\\']
    } else if c == '"' {
        seq!['\\', '"']
    } else {
        seq![c]
    }
}

/// A text with each character escaped.
pub open spec fn escaped(text: Seq<char>) -> Seq<char>
    decreases text.len(),
{
    if text.len() == 0 {
        Seq::empty()
    } else {
        escaped(text.drop_last()) + escaped_char(text.last())
    }
}

/// A text as a JSON string: escaped, between double quotes.
pub open spec fn quoted(text: Seq<char>) -> Seq<char> {
    seq!['"'] + escaped(text) + seq!['"']
}

/// Writes a text as a JSON string with `String`'s `SerJson::serialize_json`,
/// which puts the text between double quotes and escapes it character by
/// character.
#[verifier::external_body]
fn quote(text: &String) -> (r: String)
    ensures
        r@ == quoted(text@),
{
    text.serialize_json()
}

/// JSON text of a login request.
pub open spec fn auth_json(username: Seq<char>) -> Seq<char> {
    "{\"username\":"@ + quoted(username) + "}"@
}

/// JSON text of an initiate-chat request.
pub open spec fn initiate_json(target_username: Seq<char>) -> Seq<char> {
    "{\"target_username\":"@ + quoted(target_username) + "}"@
}

/// JSON text of an initiate-chat request that names the other user by its
/// identifier.
pub open spec fn initiate_by_id_json(target_id: i64) -> Seq<char> {
    "{\"target_id\":"@ + decimal(target_id as int) + "}"@
}

/// The member for an optional text: nothing when it is absent.
pub open spec fn optional_member(label: Seq<char>, value: Option<Seq<char>>) -> Seq<char> {
    match value {
        Some(text) => label + quoted(text),
        None => Seq::empty(),
    }
}

/// JSON text of an attached file.
pub open spec fn file_json(f: FilePayloadView) -> Seq<char> {
    "{\"_type\":"@ + quoted(f._type) + ",\"url\":"@ + quoted(f.url) + ",\"filename\":"@ + quoted(
        f.filename,
    ) + optional_member(",\"mime_type\":"@, f.mime_type) + ",\"size_bytes\":"@ + decimal(
        f.size_bytes as int,
    ) + "}"@
}

/// JSON texts of attached files, separated by commas.
pub open spec fn files_joined(files: Seq<FilePayloadView>) -> Seq<char>
    decreases files.len(),
{
    if files.len() == 0 {
        Seq::empty()
    } else if files.len() == 1 {
        file_json(files[0])
    } else {
        files_joined(files.drop_last()) + ","@ + file_json(files.last())
    }
}

/// The member for an optional list of attached files: nothing when it is
/// absent.
pub open spec fn files_member(files: Option<Seq<FilePayloadView>>) -> Seq<char> {
    match files {
        Some(list) => ",\"files\":["@ + files_joined(list) + "]"@,
        None => Seq::empty(),
    }
}

/// JSON text of an outgoing chat message.
pub open spec fn message_json(p: ChatMessagePayloadView) -> Seq<char> {
    "{\"chat_id\":"@ + decimal(p.chat_id as int) + optional_member(",\"content\":"@, p.content)
        + files_member(p.files) + "}"@
}

impl AuthRequestPayload {
    /// The JSON text of the request.
    pub fn to_json(&self) -> (r: String)
        ensures
            r@ == auth_json(self.username@),
    {
        let mut out = String::from_str("{\"username\":");
        let name = quote(&self.username);
        out.append(name.as_str());
        out.append("}");
        out
    }
}

impl InitiateChatPayload {
    /// The JSON text of the request.
    pub fn to_json(&self) -> (r: String)
        ensures
            r@ == initiate_json(self.target_username@),
    {
        let mut out = String::from_str("{\"target_username\":");
        let name = quote(&self.target_username);
        out.append(name.as_str());
        out.append("}");
        out
    }
}

impl InitiateChatByIdPayload {
    /// The JSON text of the request.
    pub fn to_json(&self) -> (r: String)
        ensures
            r@ == initiate_by_id_json(self.target_id),
    {
        let mut out = String::from_str("{\"target_id\":");
        let id = decimal_text(self.target_id);
        out.append(id.as_str());
        out.append("}");
        out
    }
}

/// Appends the member for an optional text.
fn append_optional(out: &mut String, label: &str, value: &Option<String>)
    ensures
        final(out)@ == old(out)@ + optional_member(label@, crate::wire::text_of(*value)),
{
    match value {
        Some(text) => {
            out.append(label);
            let q = quote(text);
            out.append(q.as_str());
        },
        None => {},
    }
}

impl FilePayload {
    /// The JSON text of the attached file.
    pub fn to_json(&self) -> (r: String)
        ensures
            r@ == file_json(self@),
    {
        let mut out = String::from_str("{\"_type\":");
        let kind = quote(&self._type);
        out.append(kind.as_str());
        out.append(",\"url\":");
        let url = quote(&self.url);
        out.append(url.as_str());
        out.append(",\"filename\":");
        let filename = quote(&self.filename);
        out.append(filename.as_str());
        append_optional(&mut out, ",\"mime_type\":", &self.mime_type);
        out.append(",\"size_bytes\":");
        let size = decimal_text(self.size_bytes);
        out.append(size.as_str());
        out.append("}");
        out
    }
}

/// Appends the JSON texts of attached files, separated by commas.
fn append_files(out: &mut String, files: &Vec<FilePayload>)
    ensures
        final(out)@ == old(out)@ + files_joined(file_payloads_view(files@)),
{
    let ghost views = file_payloads_view(files@);
    let mut at: usize = 0;
    while at < files.len()
        invariant
            at <= files.len(),
            views == file_payloads_view(files@),
            views.len() == files@.len(),
            out@ == old(out)@ + files_joined(views.take(at as int)),
        decreases files.len() - at,
    {
        if at > 0 {
            out.append(",");
        }
        let one = files[at].to_json();
        out.append(one.as_str());
        assert(views.take(at as int + 1).drop_last() =~= views.take(at as int));
        at = at + 1;
    }
    assert(views.take(at as int) =~= views);
}

impl ChatMessagePayload {
    /// The JSON text of the message.
    pub fn to_json(&self) -> (r: String)
        ensures
            r@ == message_json(self@),
    {
        let mut out = String::from_str("{\"chat_id\":");
        let id = decimal_text(self.chat_id);
        out.append(id.as_str());
        append_optional(&mut out, ",\"content\":", &self.content);
        match &self.files {
            Some(list) => {
                out.append(",\"files\":[");
                append_files(&mut out, list);
                out.append("]");
            },
            None => {},
        }
        out.append("}");
        out
    }
}

} // verus!

//! Generic JSON values, as read by the `makepad_micro_serde` tokenizer.

use makepad_micro_serde::DeJson;
use makepad_micro_serde::JsonValue;
use vstd::prelude::*;
use vstd::string::*;

verus! {

/// A JSON value held in plain data.
#[derive(Debug, PartialEq)]
pub enum Json {
    Null,
    Bool(bool),
    Unsigned(u64),
    Signed(i64),
    /// A number written with a fraction. Its value is not kept.
    Real,
    Text(String),
    List(Vec<Json>),
    /// The members of an object, in no particular order.
    Record(Vec<(String, Json)>),
}

/// The mathematical content of a [`Json`] value: an object is a map from
/// member names to values.
pub enum JsonModel {
    Null,
    Bool(bool),
    Unsigned(u64),
    Signed(i64),
    Real,
    Text(Seq<char>),
    List(Seq<JsonModel>),
    Record(Map<Seq<char>, JsonModel>),
}

/// Models of the items of an array, in order.
pub open spec fn list_model(items: Seq<Json>) -> Seq<JsonModel>
    decreases items,
{
    if items.len() == 0 {
        Seq::empty()
    } else {
        list_model(items.drop_last()).push(items.last().view())
    }
}

/// The map that a member list stands for. Where a name occurs twice the later
/// member counts.
pub open spec fn record_model(members: Seq<(String, Json)>) -> Map<Seq<char>, JsonModel>
    decreases members,
{
    if members.len() == 0 {
        Map::empty()
    } else {
        record_model(members.drop_last()).insert(members.last().0@, members.last().1.view())
    }
}

impl View for Json {
    type V = JsonModel;

    open spec fn view(&self) -> JsonModel
        decreases self,
    {
        match self {
            Json::Null => JsonModel::Null,
            Json::Bool(b) => JsonModel::Bool(*b),
            Json::Unsigned(n) => JsonModel::Unsigned(*n),
            Json::Signed(n) => JsonModel::Signed(*n),
            Json::Real => JsonModel::Real,
            Json::Text(s) => JsonModel::Text(s@),
            Json::List(items) => JsonModel::List(list_model(items@)),
            Json::Record(members) => JsonModel::Record(record_model(members@)),
        }
    }
}

/// How deep arrays and objects may be nested in a text that is read.
pub const MAX_NESTING: usize = 64;

/// Where a scan stands in a JSON text.
#[derive(Clone, Copy, Debug, PartialEq, Eq, Structural)]
pub enum Lexing {
    /// Outside any string.
    Plain,
    /// Inside a string.
    Text,
    /// Behind a backslash inside a string.
    Escape,
    /// Inside a `\u` escape, with this many characters of it to come.
    Hex(u8),
}

/// One character of a scan: the place and the number of open arrays and
/// objects after it. Brackets and braces count outside strings only; a
/// closing one in excess is passed over. Inside a string a backslash takes
/// the next character with it, and `\u` the four after that.
pub open spec fn lex_step(mode: Lexing, depth: nat, c: char) -> (Lexing, nat) {
    match mode {
        Lexing::Plain => if c == '"' {
            (Lexing::Text, depth)
        } else if c == '[' || c == '{' {
            (Lexing::Plain, depth + 1)
        } else if c == ']' || c == '}' {
            (
                Lexing::Plain,
                if depth > 0 {
                    (depth - 1) as nat
                } else {
                    0
                },
            )
        } else {
            (Lexing::Plain, depth)
        },
        Lexing::Text => if c == '"' {
            (Lexing::Plain, depth)
        } else if c == '\\' {
            (Lexing::Escape, depth)
        } else {
            (Lexing::Text, depth)
        },
        Lexing::Escape => if c == 'u' {
            (Lexing::Hex(4), depth)
        } else {
            (Lexing::Text, depth)
        },
        Lexing::Hex(left) => if left <= 1 {
            (Lexing::Text, depth)
        } else {
            (Lexing::Hex((left - 1) as u8), depth)
        },
    }
}

/// The largest number of arrays and objects that are open at once from a
/// place of a scan on.
pub open spec fn deepest_from(text: Seq<char>, at: int, mode: Lexing, depth: nat) -> nat
    decreases text.len() - at,
{
    if at < 0 || at >= text.len() {
        depth
    } else {
        let next = lex_step(mode, depth, text[at]);
        let later = deepest_from(text, at + 1, next.0, next.1);
        if later > depth {
            later
        } else {
            depth
        }
    }
}

/// How deep arrays and objects are nested in a text.
pub open spec fn nesting(text: Seq<char>) -> nat {
    deepest_from(text, 0, Lexing::Plain, 0)
}

/// The cause reported for a text that nests too deep to be read.
pub open spec fn nesting_cause() -> Seq<char> {
    "arrays and objects are nested too deep"@
}

/// What reading a text gives: a text that nests deeper than [`MAX_NESTING`]
/// is refused; any other is read by the JSON reader.
pub open spec fn reading(text: Seq<char>) -> Result<JsonModel, Seq<char>> {
    if nesting(text) > MAX_NESTING {
        Err(nesting_cause())
    } else {
        json_reading(text)
    }
}

/// View of the result of reading.
pub open spec fn reading_view(r: Result<Json, String>) -> Result<JsonModel, Seq<char>> {
    match r {
        Ok(value) => Ok(value@),
        Err(cause) => Err(cause@),
    }
}

/// `makepad_micro_serde::JsonValue`, the value that the JSON reader builds.
/// Nothing is known of what is inside one.
#[verifier::external_type_specification]
#[verifier::external_body]
pub struct ExJsonValue(JsonValue);

/// What `JsonValue::deserialize_json` makes of a text: the value it reads, or
/// the rendering of the error it reports.
pub uninterp spec fn json_reading(text: Seq<char>) -> Result<JsonModel, Seq<char>>;

/// Moves a `makepad_micro_serde::JsonValue` into a [`Json`], variant by
/// variant. A number with a fraction loses its value. The variants that the
/// reader never builds (`Char`, `BareIdent`, `Undefined`) go to `Null`.
#[verifier::external_body]
fn lift(value: JsonValue) -> Json {
    match value {
        JsonValue::Null => Json::Null,
        JsonValue::Bool(b) => Json::Bool(b),
        JsonValue::U64(n) => Json::Unsigned(n),
        JsonValue::I64(n) => Json::Signed(n),
        JsonValue::F64(_) => Json::Real,
        JsonValue::String(s) => Json::Text(s),
        JsonValue::Array(items) => Json::List(items.into_iter().map(lift).collect()),
        JsonValue::Object(members) => Json::Record(members.into_iter().map(|(k, v)| (k, lift(v))).collect()),
        _ => Json::Null,
    }
}

/// Reads one JSON value from the start of `text` with
/// `JsonValue::deserialize_json`, and renders the error that it may report
/// with the error's `Debug` form. Both are functions of the text alone.
///
/// The reader calls itself once for each array or object that is open, so the
/// text must not nest deeper than [`MAX_NESTING`]. The reader's tokenizer
/// takes brackets and braces for what they are outside strings only, ends a
/// string at the first double quote that no backslash stands before, and
/// passes over four characters behind `\u`: [`nesting`] counts in the same
/// way, and never less than the reader has open.
#[verifier::external_body]
pub(crate) fn read_json(text: &str) -> (r: Result<Json, String>)
    requires
        nesting(text@) <= MAX_NESTING,
    ensures
        match r {
            Ok(value) => json_reading(text@) == Ok::<JsonModel, Seq<char>>(value@),
            Err(cause) => json_reading(text@) == Err::<JsonModel, Seq<char>>(cause@),
        },
{
    match JsonValue::deserialize_json(text) {
        Ok(value) => Ok(lift(value)),
        Err(e) => Err(format!("{:?}", e)),
    }
}

/// From any place of a scan on, at least as many arrays and objects are open
/// at once as are open there.
proof fn lemma_deepest_from_at_least(text: Seq<char>, at: int, mode: Lexing, depth: nat)
    ensures
        deepest_from(text, at, mode, depth) >= depth,
{
}

/// One character of a scan.
fn lex(mode: Lexing, depth: usize, c: char) -> (r: (Lexing, usize))
    requires
        depth < usize::MAX,
    ensures
        (r.0, r.1 as nat) == lex_step(mode, depth as nat, c),
{
    match mode {
        Lexing::Plain => {
            if c == '"' {
                (Lexing::Text, depth)
            } else if c == '[' || c == '{' {
                (Lexing::Plain, depth + 1)
            } else if c == ']' || c == '}' {
                (
                    Lexing::Plain,
                    if depth > 0 {
                        depth - 1
                    } else {
                        0
                    },
                )
            } else {
                (Lexing::Plain, depth)
            }
        },
        Lexing::Text => {
            if c == '"' {
                (Lexing::Plain, depth)
            } else if c == '\\' {
                (Lexing::Escape, depth)
            } else {
                (Lexing::Text, depth)
            }
        },
        Lexing::Escape => {
            if c == 'u' {
                (Lexing::Hex(4), depth)
            } else {
                (Lexing::Text, depth)
            }
        },
        Lexing::Hex(left) => {
            if left <= 1 {
                (Lexing::Text, depth)
            } else {
                (Lexing::Hex(left - 1), depth)
            }
        },
    }
}

/// Whether arrays and objects are nested no deeper than [`MAX_NESTING`] in
/// a text.
pub fn nests_within_limit(text: &str) -> (r: bool)
    ensures
        r == (nesting(text@) <= MAX_NESTING),
{
    let mut mode = Lexing::Plain;
    let mut depth: usize = 0;
    for c in it: text.chars()
        invariant
            it.seq() == text@,
            depth <= MAX_NESTING,
            (nesting(text@) <= MAX_NESTING) == (deepest_from(
                text@,
                it.index() as int,
                mode,
                depth as nat,
            ) <= MAX_NESTING),
    {
        let next = lex(mode, depth, c);
        proof {
            lemma_deepest_from_at_least(text@, it.index() as int + 1, next.0, next.1 as nat);
        }
        if next.1 > MAX_NESTING {
            return false;
        }
        mode = next.0;
        depth = next.1;
    }
    true
}

/// Reads one JSON value from the start of a text. A text that nests deeper
/// than [`MAX_NESTING`] is refused.
pub fn read(text: &str) -> (r: Result<Json, String>)
    ensures
        reading_view(r) == reading(text@),
{
    if nests_within_limit(text) {
        read_json(text)
    } else {
        Err(String::from_str("arrays and objects are nested too deep"))
    }
}

/// The model of an array has one entry per item, in order.
pub proof fn lemma_list_model(items: Seq<Json>)
    ensures
        list_model(items).len() == items.len(),
        forall|i: int| 0 <= i < items.len() ==> list_model(items)[i] == (#[trigger] items[i])@,
    decreases items.len(),
{
    if items.len() > 0 {
        let rest = items.drop_last();
        lemma_list_model(rest);
        assert(list_model(items) == list_model(rest).push(items.last().view()));
        assert forall|i: int| 0 <= i < items.len() implies list_model(items)[i] == (
        #[trigger] items[i])@ by {
            if i < rest.len() {
                assert(rest[i] == items[i]);
            }
        }
    }
}

/// The member at position `at` decides the value under its name when no later
/// member has the same name.
pub proof fn lemma_record_member(members: Seq<(String, Json)>, key: Seq<char>, at: int)
    requires
        0 <= at < members.len(),
        members[at].0@ == key,
        forall|k: int| at < k < members.len() ==> (#[trigger] members[k]).0@ != key,
    ensures
        record_model(members).contains_key(key),
        record_model(members)[key] == members[at].1@,
    decreases members.len(),
{
    assert(record_model(members) == record_model(members.drop_last()).insert(
        members.last().0@,
        members.last().1@,
    ));
    if at < members.len() - 1 {
        let rest = members.drop_last();
        assert(members.last() == members[members.len() - 1]);
        assert(members.last().0@ != key);
        assert forall|k: int| at < k < rest.len() implies (#[trigger] rest[k]).0@ != key by {
            assert(rest[k] == members[k]);
        }
        lemma_record_member(rest, key, at);
    }
}

/// A name is in the model of a member list exactly when some member has it.
pub proof fn lemma_record_names(members: Seq<(String, Json)>, key: Seq<char>)
    ensures
        record_model(members).contains_key(key) <==> exists|k: int|
            0 <= k < members.len() && (#[trigger] members[k]).0@ == key,
    decreases members.len(),
{
    if members.len() == 0 {
        assert(record_model(members) == Map::<Seq<char>, JsonModel>::empty());
    } else {
        let rest = members.drop_last();
        lemma_record_names(rest, key);
        assert(record_model(members) == record_model(rest).insert(
            members.last().0@,
            members.last().1@,
        ));
        if record_model(members).contains_key(key) {
            if members.last().0@ == key {
                assert(members[members.len() - 1].0@ == key);
            } else {
                let k = choose|k: int| 0 <= k < rest.len() && (#[trigger] rest[k]).0@ == key;
                assert(members[k] == rest[k]);
            }
        }
        if exists|k: int| 0 <= k < members.len() && (#[trigger] members[k]).0@ == key {
            let k = choose|k: int| 0 <= k < members.len() && (#[trigger] members[k]).0@ == key;
            if k < rest.len() {
                assert(rest[k] == members[k]);
            }
        }
    }
}

/// Whether a text and a string slice hold the same characters.
pub fn same_text(a: &String, b: &str) -> (r: bool)
    ensures
        r == (a@ == b@),
{
    let owned = String::from_str(b);
    *a == owned
}

/// Looks a member up by name.
pub fn member<'a>(members: &'a Vec<(String, Json)>, key: &str) -> (r: Option<&'a Json>)
    ensures
        match r {
            Some(value) => record_model(members@).contains_key(key@) && record_model(
                members@,
            )[key@] == value@,
            None => !record_model(members@).contains_key(key@),
        },
{
    let mut at: usize = members.len();
    while at > 0
        invariant
            at <= members.len(),
            forall|k: int| at <= k < members.len() ==> (#[trigger] members@[k]).0@ != key@,
        decreases at,
    {
        at = at - 1;
        if same_text(&members[at].0, key) {
            proof {
                lemma_record_member(members@, key@, at as int);
            }
            return Some(&members[at].1);
        }
    }
    proof {
        lemma_record_names(members@, key@);
    }
    None
}

} // verus!

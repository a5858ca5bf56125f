//! Users as JSON: reading a creation payload and writing a stored record.

use vstd::prelude::*;
use crate::model::{ApiError, User, UserModel};
use crate::number::{decimal_text, digit_char, format_i32};
use crate::request::{body_of, get_body};
use crate::text::same_text;

verus! {

/// A parsed JSON document of `serde_json`, opaque here.
#[verifier::external_type_specification]
#[verifier::external_body]
pub struct ExValue(serde_json::Value);

/// The error of `serde_json`, opaque here.
#[verifier::external_type_specification]
#[verifier::external_body]
pub struct ExJsonError(serde_json::Error);

/// A JSON document as plain data. A number keeps its value where it is an
/// integer of 64 bits; the members of an object stand in one list, and a
/// lookup takes the first under a key. A document that was read holds each
/// key once: where the text repeats a key, its last value is the one kept.
#[derive(Debug, PartialEq, Eq)]
pub enum Json {
    Null,
    Bool(bool),
    Number(Option<i64>),
    Text(String),
    Array(Vec<Json>),
    Object(Vec<(String, Json)>),
}

/// The hexadecimal digit of `d`, in lower case.
pub open spec fn hex_char(d: int) -> char {
    if d < 10 {
        digit_char(d)
    } else if d == 10 {
        'a'
    } else if d == 11 {
        'b'
    } else if d == 12 {
        'c'
    } else if d == 13 {
        'd'
    } else if d == 14 {
        'e'
    } else {
        'f'
    }
}

/// What a character becomes inside a JSON string literal: the quote, the
/// backslash and the control characters below U+0020 are escaped, the five
/// that have a short escape by it and the others as `\u00` and two
/// hexadecimal digits; every other character stands for itself.
pub open spec fn escaped(c: char) -> Seq<char> {
    if c == '"' {
        seq!['\\', '"']
    } else if c == '\\' {
        seq!['\\', '\\']
    } else if c == '\u{8}' {
        seq!['\\', 'b']
    } else if c == '\t' {
        seq!['\\', 't']
    } else if c == '\n' {
        seq!['\\', 'n']
    } else if c == '\u{c}' {
        seq!['\\', 'f']
    } else if c == '\r' {
        seq!['\\', 'r']
    } else if (c as u32) < 0x20 {
        seq!['\\', 'u', '0', '0', hex_char((c as u32) as int / 16), hex_char((c as u32) as int % 16)]
    } else {
        seq![c]
    }
}

/// The characters of `s`, each escaped.
pub open spec fn escaped_text(s: Seq<char>) -> Seq<char>
    decreases s.len(),
{
    if s.len() == 0 {
        Seq::empty()
    } else {
        escaped_text(s.drop_last()) + escaped(s.last())
    }
}

/// The JSON string literal of the text `s`: its characters escaped,
/// between two quotes.
pub open spec fn json_string(s: Seq<char>) -> Seq<char> {
    seq!['"'] + escaped_text(s) + seq!['"']
}

/// The document that `serde_json` reads out of `text`; `None` where the
/// text is no JSON document.
pub uninterp spec fn json_of(text: Seq<char>) -> Option<Json>;

/// `serde_json::to_string` on a string slice. It succeeds on every text:
/// it fails only where a `Serialize` impl fails or a map has a key that is
/// no string, and a string slice is neither. The result is the JSON
/// literal of the text, escaped as `json_string` says.
#[verifier::external_body]
fn quote(s: &str) -> (r: Result<String, serde_json::Error>)
    ensures
        r is Ok,
        r matches Ok(t) ==> t@ == json_string(s@),
{
    serde_json::to_string(s)
}

/// Copies a `serde_json::Value` into a [`Json`], variant by variant; a
/// number goes through `serde_json::Number::as_i64`.
#[verifier::external_body]
fn lift(value: serde_json::Value) -> (doc: Json) {
    match value {
        serde_json::Value::Null => Json::Null,
        serde_json::Value::Bool(b) => Json::Bool(b),
        serde_json::Value::Number(n) => Json::Number(n.as_i64()),
        serde_json::Value::String(s) => Json::Text(s),
        serde_json::Value::Array(items) => Json::Array(items.into_iter().map(lift).collect()),
        serde_json::Value::Object(members) => Json::Object(
            members.into_iter().map(|(k, v)| (k, lift(v))).collect(),
        ),
    }
}

/// `serde_json::from_str` at the type `serde_json::Value`: parses a whole
/// document. What it reads depends on the text alone; it fails exactly
/// where the text is no document.
#[verifier::external_body]
fn read_document(text: &str) -> (r: Result<Json, serde_json::Error>)
    ensures
        match r {
            Ok(doc) => json_of(text@) == Some(doc),
            Err(_) => json_of(text@).is_none(),
        },
{
    match serde_json::from_str::<serde_json::Value>(text) {
        Ok(value) => Ok(lift(value)),
        Err(e) => Err(e),
    }
}

/// What a payload holds under `id`.
#[derive(Debug, Clone, Copy, PartialEq, Eq, Structural)]
pub enum IdField {
    /// No such member, or `null`.
    Absent,
    /// An integer.
    Whole(i64),
    /// Anything else.
    Other,
}

/// The identifier a payload carries: none where the member is absent, the
/// integer where it fits 32 bits; any other member spoils the payload.
pub open spec fn id_of_field(id: IdField) -> Result<Option<int>, ApiError> {
    match id {
        IdField::Absent => Ok(None),
        IdField::Whole(n) => if -0x8000_0000 <= n <= 0x7fff_ffff {
            Ok(Some(n as int))
        } else {
            Err(ApiError::MalformedPayload)
        },
        IdField::Other => Err(ApiError::MalformedPayload),
    }
}

/// The user that the members of a payload make up. `name` and `email` are
/// the texts under those keys, `None` where the member is missing or no
/// string.
pub open spec fn user_of_fields(
    id: IdField,
    name: Option<Seq<char>>,
    email: Option<Seq<char>>,
) -> Result<UserModel, ApiError> {
    match (id_of_field(id), name, email) {
        (Ok(i), Some(n), Some(e)) => Ok(UserModel { id: i, name: n, email: e }),
        _ => Err(ApiError::MalformedPayload),
    }
}

/// The member of an object under `key`: the first one with that key.
pub open spec fn member_of(entries: Seq<(String, Json)>, key: Seq<char>) -> Option<Json>
    decreases entries.len(),
{
    if entries.len() == 0 {
        None
    } else if entries[0].0@ == key {
        Some(entries[0].1)
    } else {
        member_of(entries.subrange(1, entries.len() as int), key)
    }
}

/// The text of a member: `None` where it is missing or no string.
pub open spec fn text_of(member: Option<Json>) -> Option<Seq<char>> {
    match member {
        Some(Json::Text(s)) => Some(s@),
        _ => None,
    }
}

/// What a member says as an identifier.
pub open spec fn id_field_of(member: Option<Json>) -> IdField {
    match member {
        None => IdField::Absent,
        Some(Json::Null) => IdField::Absent,
        Some(Json::Number(Some(n))) => IdField::Whole(n),
        Some(_) => IdField::Other,
    }
}

/// The user that a JSON document describes.
pub open spec fn user_of_json(doc: Json) -> Result<UserModel, ApiError> {
    match doc {
        Json::Object(entries) => user_of_fields(
            id_field_of(member_of(entries@, "id"@)),
            text_of(member_of(entries@, "name"@)),
            text_of(member_of(entries@, "email"@)),
        ),
        _ => Err(ApiError::MalformedPayload),
    }
}

/// The user that a JSON body describes.
pub open spec fn user_of_payload(body: Seq<char>) -> Result<UserModel, ApiError> {
    match json_of(body) {
        Some(doc) => user_of_json(doc),
        None => Err(ApiError::MalformedPayload),
    }
}

/// The view of an optional text.
pub open spec fn text_view(t: Option<String>) -> Option<Seq<char>> {
    match t {
        Some(s) => Some(s@),
        None => None,
    }
}

/// The JSON text of an identifier: `null` or its decimal digits.
pub open spec fn id_json(id: Option<int>) -> Seq<char> {
    match id {
        Some(n) => decimal_text(n),
        None => "null"@,
    }
}

/// The JSON object with the members `id`, `name`, `email`, in this order
/// and with no white space, where `name` and `email` are JSON literals
/// already.
pub open spec fn object_text(id: Option<int>, name: Seq<char>, email: Seq<char>) -> Seq<char> {
    "{\"id\":"@ + id_json(id) + ",\"name\":"@ + name + ",\"email\":"@ + email + "}"@
}

/// The JSON object of a user: its id, and its name and email as JSON
/// string literals.
pub open spec fn user_json(u: UserModel) -> Seq<char> {
    object_text(u.id, json_string(u.name), json_string(u.email))
}

/// The integer view of an optional identifier.
pub open spec fn id_view(id: Option<i32>) -> Option<int> {
    match id {
        Some(n) => Some(n as int),
        None => None,
    }
}

/// Builds a user from the members of a payload.
pub fn build_user(id: IdField, name: Option<String>, email: Option<String>) -> (r: Result<
    User,
    ApiError,
>)
    ensures
        match r {
            Ok(u) => user_of_fields(id, text_view(name), text_view(email)) == Ok::<
                UserModel,
                ApiError,
            >(u@),
            Err(e) => user_of_fields(id, text_view(name), text_view(email)) == Err::<
                UserModel,
                ApiError,
            >(e),
        },
{
    let id: Option<i32> = match id {
        IdField::Absent => None,
        IdField::Whole(n) => {
            if n < -0x8000_0000 || n > 0x7fff_ffff {
                return Err(ApiError::MalformedPayload);
            }
            Some(n as i32)
        },
        IdField::Other => {
            return Err(ApiError::MalformedPayload);
        },
    };
    match (name, email) {
        (Some(name), Some(email)) => Ok(User { id, name, email }),
        _ => Err(ApiError::MalformedPayload),
    }
}

/// Finds the member of an object under `key`.
pub fn find_member<'a>(entries: &'a Vec<(String, Json)>, key: &str) -> (r: Option<&'a Json>)
    ensures
        match r {
            Some(doc) => member_of(entries@, key@) == Some(*doc),
            None => member_of(entries@, key@).is_none(),
        },
{
    let len: usize = entries.len();
    let mut i: usize = 0;
    assert(entries@.subrange(0, len as int) =~= entries@);
    while i < len
        invariant
            i <= len,
            len == entries@.len(),
            member_of(entries@.subrange(i as int, len as int), key@) == member_of(entries@, key@),
        decreases len - i,
    {
        let ghost rest = entries@.subrange(i as int, len as int);
        assert(rest[0] == entries@[i as int]);
        assert(rest.subrange(1, rest.len() as int) =~= entries@.subrange(i + 1, len as int));
        if same_text(entries[i].0.as_str(), key) {
            return Some(&entries[i].1);
        }
        i = i + 1;
    }
    None
}

/// Reads a member as text.
fn member_text(entries: &Vec<(String, Json)>, key: &str) -> (r: Option<String>)
    ensures
        text_view(r) == text_of(member_of(entries@, key@)),
{
    match find_member(entries, key) {
        Some(Json::Text(s)) => Some(s.clone()),
        _ => None,
    }
}

/// Reads a member as an identifier.
fn member_id(entries: &Vec<(String, Json)>, key: &str) -> (r: IdField)
    ensures
        r == id_field_of(member_of(entries@, key@)),
{
    match find_member(entries, key) {
        None => IdField::Absent,
        Some(Json::Null) => IdField::Absent,
        Some(Json::Number(Some(n))) => IdField::Whole(*n),
        Some(_) => IdField::Other,
    }
}

/// Reads a user out of a JSON document: an object with the texts `name`
/// and `email`, and with no `id`, a null one or an integer of 32 bits.
/// Other members are ignored; anything else is a malformed payload.
pub fn user_from_json(doc: &Json) -> (r: Result<User, ApiError>)
    ensures
        match r {
            Ok(u) => user_of_json(*doc) == Ok::<UserModel, ApiError>(u@),
            Err(e) => user_of_json(*doc) == Err::<UserModel, ApiError>(e),
        },
{
    match doc {
        Json::Object(entries) => {
            let id = member_id(entries, "id");
            let name = member_text(entries, "name");
            let email = member_text(entries, "email");
            build_user(id, name, email)
        },
        _ => Err(ApiError::MalformedPayload),
    }
}

/// Reads a user out of a JSON body: what `user_from_json` makes of the
/// document in it, and a malformed payload where it holds none.
pub fn parse_user(body: &str) -> (r: Result<User, ApiError>)
    ensures
        match r {
            Ok(u) => user_of_payload(body@) == Ok::<UserModel, ApiError>(u@),
            Err(e) => user_of_payload(body@) == Err::<UserModel, ApiError>(e),
        },
{
    match read_document(body) {
        Ok(doc) => user_from_json(&doc),
        Err(_) => Err(ApiError::MalformedPayload),
    }
}

/// Reads the user that the body of a request describes.
pub fn get_user_request_body(request: &str) -> (r: Result<User, ApiError>)
    ensures
        match r {
            Ok(u) => user_of_payload(body_of(request@)) == Ok::<UserModel, ApiError>(u@),
            Err(e) => user_of_payload(body_of(request@)) == Err::<UserModel, ApiError>(e),
        },
{
    parse_user(get_body(request))
}

/// Puts the JSON object of a user together from its id and the JSON
/// literals of its name and email. There is an object exactly where both
/// literals are there.
pub fn join_user_json(id: Option<i32>, name: Option<String>, email: Option<String>) -> (r: Option<
    String,
>)
    ensures
        match (name, email) {
            (Some(n), Some(e)) => r matches Some(t) && t@ == object_text(id_view(id), n@, e@),
            _ => r is None,
        },
{
    match (name, email) {
        (Some(name), Some(email)) => {
            let mut out = String::from_str("{\"id\":");
            match id {
                Some(n) => {
                    let digits = format_i32(n);
                    out.append(digits.as_str());
                },
                None => {
                    out.append("null");
                },
            }
            out.append(",\"name\":");
            out.append(name.as_str());
            out.append(",\"email\":");
            out.append(email.as_str());
            out.append("}");
            Some(out)
        },
        _ => None,
    }
}

/// Writes the JSON literal of a text.
fn quoted(s: &str) -> (r: Option<String>)
    ensures
        r matches Some(t) && t@ == json_string(s@),
{
    match quote(s) {
        Ok(t) => Some(t),
        Err(_) => None,
    }
}

/// Writes a user as a JSON object: what `join_user_json` makes of the id
/// and of the JSON literals of name and email. There is an object for
/// every user.
pub fn user_to_json(user: &User) -> (r: Option<String>)
    ensures
        r matches Some(t) && t@ == user_json(user@),
{
    let name = quoted(user.name.as_str());
    let email = quoted(user.email.as_str());
    join_user_json(user.id, name, email)
}

} // verus!

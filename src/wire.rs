use vstd::prelude::*;
use vstd::string::*;
use crate::json::{object_entries, JsonObject};

verus! {

pub open spec fn hex_digit(n: int) -> char {
    seq!['0', '1', '2', '3', '4', '5', '6', '7', '8', '9', 'a', 'b', 'c', 'd', 'e', 'f'][n]
}

/// How one character stands inside a JSON string: `"` and `\` behind a
/// backslash, the controls with a short escape in it, the other controls below
/// 0x20 as `\u00xx`, and every other character as it is.
pub open spec fn escaped_char(c: char) -> Seq<char> {
    if c == '"' {
        seq!['\\', '"']
    } else if c == '\\' {
        seq!['\\', '\\']
    } else if c == '\u{8}' {
        seq!['\\', 'b']
    } else if c == '\t' {
        seq!['\\', 't']
    } else if c == '\n' {
        seq!['\\', 'n']
    } else if c == '\u{c}' {
        seq!['\\', 'f']
    } else if c == '\r' {
        seq!['\\', 'r']
    } else if (c as u32) < 0x20 {
        seq!['\\', 'u', '0', '0', hex_digit((c as u32 / 16) as int), hex_digit((c as u32 % 16) as int)]
    } else {
        seq![c]
    }
}

pub open spec fn escaped(s: Seq<char>) -> Seq<char>
    decreases s.len(),
{
    if s.len() == 0 {
        Seq::empty()
    } else {
        escaped(s.drop_last()) + escaped_char(s.last())
    }
}

/// The JSON text of a string: quoted and escaped.
pub open spec fn json_quoted(s: Seq<char>) -> Seq<char> {
    seq!['"'] + escaped(s) + seq!['"']
}

/// The JSON text of an object with these entries.
pub uninterp spec fn object_text(entries: Map<Seq<char>, serde_json::Value>) -> Seq<char>;

/// Relies on serde_json::to_string on a `str`, which cannot fail: the string
/// between quotes, each character escaped as `format_escaped_str` does.
#[verifier::external_body]
fn quoted(s: &str) -> (r: String)
    ensures
        r@ == json_quoted(s@),
{
    serde_json::to_string(s).unwrap_or_default()
}

/// Relies on serde_json::to_string on a map of strings to values, which cannot
/// fail: the map as a JSON object.
#[verifier::external_body]
pub(crate) fn object_json(m: &JsonObject) -> (r: String)
    ensures
        r@ == object_text(object_entries(*m)),
{
    serde_json::to_string(m).unwrap_or_default()
}

pub open spec fn is_lower_hex(c: char) -> bool {
    ('0' <= c <= '9') || ('a' <= c <= 'f')
}

/// A random (version 4) UUID in its hyphenated lowercase form: hex digits in
/// groups of 8, 4, 4, 4 and 12, the version digit `4`, and the variant digit
/// one of `8`, `9`, `a`, `b`.
pub open spec fn is_uuid_v4_text(s: Seq<char>) -> bool {
    &&& s.len() == 36
    &&& forall|i: int|
        0 <= i < 36 ==> if i == 8 || i == 13 || i == 18 || i == 23 {
            #[trigger] s[i] == '-'
        } else if i == 14 {
            s[i] == '4'
        } else if i == 19 {
            s[i] == '8' || s[i] == '9' || s[i] == 'a' || s[i] == 'b'
        } else {
            is_lower_hex(s[i])
        }
}

/// Relies on uuid::Uuid::new_v4 and its `Display`: a random version 4
/// identifier, in its hyphenated lowercase form.
#[verifier::external_body]
fn random_uuid() -> (r: String)
    ensures
        is_uuid_v4_text(r@),
{
    uuid::Uuid::new_v4().to_string()
}

pub open spec fn operation_name_text(name: Option<Seq<char>>) -> Seq<char> {
    match name {
        Some(n) => json_quoted(n),
        None => "null"@,
    }
}

/// The operation as JSON: `{"operationName":..,"query":..,"variables":..}`.
pub open spec fn operation_text(
    query: Seq<char>,
    operation_name: Option<Seq<char>>,
    variables: Map<Seq<char>, serde_json::Value>,
) -> Seq<char> {
    "{\"operationName\":"@ + operation_name_text(operation_name) + ",\"query\":"@ + json_quoted(query)
        + ",\"variables\":"@ + object_text(variables) + "}"@
}

/// The `subscribe` message of the `graphql-transport-ws` protocol.
pub open spec fn subscribe_text(
    id: Seq<char>,
    query: Seq<char>,
    operation_name: Option<Seq<char>>,
    variables: Map<Seq<char>, serde_json::Value>,
) -> Seq<char> {
    "{\"id\":"@ + json_quoted(id) + ",\"payload\":"@ + operation_text(query, operation_name, variables)
        + ",\"type\":\"subscribe\"}"@
}

pub open spec fn opt_view(s: Option<&str>) -> Option<Seq<char>> {
    match s {
        Some(t) => Some(t@),
        None => None,
    }
}

/// The body of the HTTP request for an operation.
pub fn operation_body(query: &str, operation_name: Option<&str>, variables: &JsonObject) -> (r: String)
    ensures
        r@ == operation_text(query@, opt_view(operation_name), object_entries(*variables)),
{
    let mut r = String::from_str("{\"operationName\":");
    match operation_name {
        Some(n) => {
            let q = quoted(n);
            r.append(q.as_str());
        },
        None => r.append("null"),
    }
    r.append(",\"query\":");
    let q = quoted(query);
    r.append(q.as_str());
    r.append(",\"variables\":");
    let v = object_json(variables);
    r.append(v.as_str());
    r.append("}");
    r
}

/// The `connection_init` message, with an empty payload.
pub fn connection_init_message() -> (r: String)
    ensures
        r@ == "{\"payload\":{},\"type\":\"connection_init\"}"@,
{
    String::from_str("{\"payload\":{},\"type\":\"connection_init\"}")
}

/// The `subscribe` message for an operation under the given subscription id.
pub fn subscribe_message(id: &str, query: &str, operation_name: Option<&str>, variables: &JsonObject) -> (r:
    String)
    ensures
        r@ == subscribe_text(id@, query@, opt_view(operation_name), object_entries(*variables)),
{
    let mut r = String::from_str("{\"id\":");
    let q = quoted(id);
    r.append(q.as_str());
    r.append(",\"payload\":");
    let body = operation_body(query, operation_name, variables);
    r.append(body.as_str());
    r.append(",\"type\":\"subscribe\"}");
    r
}

/// The `subscribe` message under a fresh random subscription id, which is
/// returned beside it.
pub fn new_subscribe_message(query: &str, operation_name: Option<&str>, variables: &JsonObject) -> (r: (
    String,
    String,
))
    ensures
        is_uuid_v4_text(r.0@),
        r.1@ == subscribe_text(r.0@, query@, opt_view(operation_name), object_entries(*variables)),
{
    let id = random_uuid();
    let message = subscribe_message(id.as_str(), query, operation_name, variables);
    (id, message)
}

} // verus!

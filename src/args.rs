use vstd::prelude::*;
use vstd::string::*;
use crate::json::{parse_value, parsed_value};
use crate::text::{has_prefix, is_prefix, same_text};

verus! {

#[verifier::external_type_specification]
#[verifier::external_body]
pub struct ExHeaderName(http::HeaderName);

#[verifier::external_type_specification]
#[verifier::external_body]
pub struct ExHeaderValue(http::HeaderValue);

#[verifier::external_type_specification]
#[verifier::external_body]
pub struct ExInvalidHeaderName(http::header::InvalidHeaderName);

#[verifier::external_type_specification]
#[verifier::external_body]
pub struct ExInvalidHeaderValue(http::header::InvalidHeaderValue);

#[verifier::external_type_specification]
#[verifier::external_body]
pub struct ExJsonNumber(serde_json::Number);

/// A character that may stand in an HTTP header name.
pub open spec fn is_token_char(c: char) -> bool {
    ('a' <= c <= 'z') || ('A' <= c <= 'Z') || ('0' <= c <= '9') || c == '!' || c == '#' || c == '$'
        || c == '%' || c == '&' || c == '\'' || c == '*' || c == '+' || c == '-' || c == '.' || c
        == '^' || c == '_' || c == '`' || c == '|' || c == '~'
}

/// Whether a text is a valid HTTP header name: 1 to 65535 characters, each one
/// a token character (all ASCII, so as many bytes).
pub open spec fn valid_header_name(s: Seq<char>) -> bool {
    1 <= s.len() <= 65535 && forall|i: int| 0 <= i < s.len() ==> is_token_char(#[trigger] s[i])
}

/// Whether a text is a valid HTTP header value: every byte of it is a tab, or
/// at least a space and not DEL. A character beyond ASCII is encoded in bytes
/// of 128 and more, which are all accepted.
pub open spec fn valid_header_value(s: Seq<char>) -> bool {
    forall|i: int|
        0 <= i < s.len() ==> #[trigger] s[i] == '\t' || (s[i] as u32 >= 32 && s[i] as u32 != 127)
}

/// The header name that a valid text makes.
pub uninterp spec fn header_name_of(s: Seq<char>) -> http::HeaderName;

/// The header value that a valid text makes.
pub uninterp spec fn header_value_of(s: Seq<char>) -> http::HeaderValue;

/// The JSON number that holds an `i128` in the range of `i64` or `u64`.
pub uninterp spec fn json_number_of_i128(n: i128) -> serde_json::Number;

/// The JSON number that holds a `u128` in the range of `u64`.
pub uninterp spec fn json_number_of_u128(n: u128) -> serde_json::Number;

pub open spec fn is_digit(c: char) -> bool {
    '0' <= c <= '9'
}

/// The value of a non-empty run of decimal digits.
pub open spec fn digits_value(d: Seq<char>) -> int
    decreases d.len(),
{
    if d.len() == 0 {
        0
    } else {
        digits_value(d.drop_last()) * 10 + (d.last() as u32 - '0' as u32)
    }
}

pub open spec fn all_digits(d: Seq<char>) -> bool {
    d.len() > 0 && forall|i: int| 0 <= i < d.len() ==> is_digit(#[trigger] d[i])
}

/// A text read as a decimal integer: an optional sign, then digits only.
pub open spec fn decimal_of(s: Seq<char>, signed: bool) -> Option<int> {
    if s.len() > 0 && s[0] == '-' && signed {
        if all_digits(s.skip(1)) {
            Some(-digits_value(s.skip(1)))
        } else {
            None
        }
    } else if s.len() > 0 && s[0] == '+' {
        if all_digits(s.skip(1)) {
            Some(digits_value(s.skip(1)))
        } else {
            None
        }
    } else if all_digits(s) {
        Some(digits_value(s))
    } else {
        None
    }
}

/// The `i128` a text denotes, if it is a decimal integer in range.
pub open spec fn parsed_i128(s: Seq<char>) -> Option<i128> {
    match decimal_of(s, true) {
        Some(v) => if i128::MIN <= v <= i128::MAX {
            Some(v as i128)
        } else {
            None
        },
        None => None,
    }
}

/// The `u128` a text denotes, if it is an unsigned decimal integer in range.
pub open spec fn parsed_u128(s: Seq<char>) -> Option<u128> {
    match decimal_of(s, false) {
        Some(v) => if 0 <= v <= u128::MAX {
            Some(v as u128)
        } else {
            None
        },
        None => None,
    }
}

/// Relies on http::HeaderName::from_str: it accepts exactly the texts of 1 to
/// 65535 token characters, and makes the name of the text.
#[verifier::external_body]
fn header_name(s: &str) -> (r: Result<http::HeaderName, http::header::InvalidHeaderName>)
    ensures
        r is Ok <==> valid_header_name(s@),
        r is Ok ==> r->Ok_0 == header_name_of(s@),
{
    <http::HeaderName as std::str::FromStr>::from_str(s)
}

/// Relies on http::HeaderValue::from_str: it refuses a text with a byte that
/// is neither a tab nor at least a space and not DEL, and makes the value of
/// any other text.
#[verifier::external_body]
fn header_value(s: &str) -> (r: Result<http::HeaderValue, http::header::InvalidHeaderValue>)
    ensures
        r is Ok <==> valid_header_value(s@),
        r is Ok ==> r->Ok_0 == header_value_of(s@),
{
    http::HeaderValue::from_str(s)
}

/// Relies on `str::parse::<i128>`: an optional `+` or `-`, then decimal
/// digits only, in the range of `i128`.
#[verifier::external_body]
fn parse_i128(s: &str) -> (r: Option<i128>)
    ensures
        r == parsed_i128(s@),
{
    s.parse::<i128>().ok()
}

/// Relies on `str::parse::<u128>`: an optional `+`, then decimal digits only,
/// in the range of `u128`.
#[verifier::external_body]
fn parse_u128(s: &str) -> (r: Option<u128>)
    ensures
        r == parsed_u128(s@),
{
    s.parse::<u128>().ok()
}

/// Relies on serde_json::Number::from_i128: a number exactly when the value
/// fits in `i64` or `u64`.
#[verifier::external_body]
fn number_from_i128(n: i128) -> (r: Option<serde_json::Number>)
    ensures
        r is Some <==> i64::MIN <= n <= u64::MAX,
        r is Some ==> r->Some_0 == json_number_of_i128(n),
{
    serde_json::Number::from_i128(n)
}

/// Relies on serde_json::Number::from_u128: a number exactly when the value
/// fits in `u64`.
#[verifier::external_body]
fn number_from_u128(n: u128) -> (r: Option<serde_json::Number>)
    ensures
        r is Some <==> n <= u64::MAX,
        r is Some ==> r->Some_0 == json_number_of_u128(n),
{
    serde_json::Number::from_u128(n)
}

/// A `name=value` argument cut at its first `=`: the name, and the value if
/// there is an `=`.
pub open spec fn assignment_of(s: Seq<char>) -> (Seq<char>, Option<Seq<char>>) {
    if s.contains('=') {
        let k = choose|k: int| 0 <= k < s.len() && s[k] == '=' && !s.take(k).contains('=');
        (s.take(k), Some(s.skip(k + 1)))
    } else {
        (s, None)
    }
}

pub open spec fn opt_view(s: Option<String>) -> Option<Seq<char>> {
    match s {
        Some(t) => Some(t@),
        None => None,
    }
}

proof fn lemma_first_eq_unique(s: Seq<char>, k1: int, k2: int)
    requires
        0 <= k1 < s.len() && s[k1] == '=' && !s.take(k1).contains('='),
        0 <= k2 < s.len() && s[k2] == '=' && !s.take(k2).contains('='),
    ensures
        k1 == k2,
{
    if k1 < k2 {
        assert(s.take(k2)[k1] == '=');
    } else if k2 < k1 {
        assert(s.take(k1)[k2] == '=');
    }
}

/// Cuts a `name=value` argument at its first `=`.
pub fn split_assignment(arg: &str) -> (r: (String, Option<String>))
    ensures
        (r.0@, opt_view(r.1)) == assignment_of(arg@),
{
    let n = arg.unicode_len();
    let mut i: usize = 0;
    while i < n
        invariant
            i <= n,
            n == arg@.len(),
            forall|j: int| 0 <= j < i ==> arg@[j] != '=',
        decreases n - i,
    {
        if arg.get_char(i) == '=' {
            let name = arg.substring_char(0, i);
            let value = arg.substring_char(i + 1, n);
            proof {
                let s = arg@;
                assert(!s.take(i as int).contains('=')) by {
                    assert forall|j: int| 0 <= j < i implies s.take(i as int)[j] != '=' by {}
                }
                assert(s.contains('='));
                let k = choose|k: int| 0 <= k < s.len() && s[k] == '=' && !s.take(k).contains('=');
                lemma_first_eq_unique(s, k, i as int);
                assert(name@ =~= s.take(i as int));
                assert(value@ =~= s.skip(i + 1));
            }
            return (name.to_string(), Some(value.to_string()));
        }
        i += 1;
    }
    proof {
        assert(!arg@.contains('=')) by {
            if arg@.contains('=') {
                let j = choose|j: int| 0 <= j < arg@.len() && arg@[j] == '=';
                assert(arg@[j] != '=');
            }
        }
    }
    (arg.to_string(), None)
}

/// The name and the value of a header argument; without `=` the value is empty.
pub open spec fn header_parts(s: Seq<char>) -> (Seq<char>, Seq<char>) {
    match assignment_of(s).1 {
        Some(v) => (assignment_of(s).0, v),
        None => (assignment_of(s).0, Seq::empty()),
    }
}

/// Why a `name=value` header argument was refused.
pub enum InvalidHeader {
    Name(http::header::InvalidHeaderName),
    Value(http::header::InvalidHeaderValue),
}

/// What a header argument reads as: an invalid name is refused first, then an
/// invalid value; otherwise the header that http makes from the two parts.
pub open spec fn header_reads_as(
    arg: Seq<char>,
    r: Result<(http::HeaderName, http::HeaderValue), InvalidHeader>,
) -> bool {
    let (name, value) = header_parts(arg);
    if !valid_header_name(name) {
        r is Err && r->Err_0 is Name
    } else if !valid_header_value(value) {
        r is Err && r->Err_0 is Value
    } else {
        r is Ok && r->Ok_0 == (header_name_of(name), header_value_of(value))
    }
}

/// Reads a `name=value` argument as an HTTP header; without `=` the value is empty.
pub fn parse_header_arg(arg: &str) -> (r: Result<(http::HeaderName, http::HeaderValue), InvalidHeader>)
    ensures
        header_reads_as(arg@, r),
{
    let (name, value) = split_assignment(arg);
    let value = match value {
        Some(v) => v,
        None => String::new(),
    };
    assert(value@ == header_parts(arg@).1);
    assert(name@ == header_parts(arg@).0);
    let name = match header_name(name.as_str()) {
        Ok(n) => n,
        Err(e) => {
            return Err(InvalidHeader::Name(e));
        },
    };
    match header_value(value.as_str()) {
        Ok(v) => Ok((name, v)),
        Err(e) => Err(InvalidHeader::Value(e)),
    }
}

/// The value of a `name=value` variable argument, as far as it is decided here.
pub enum VariableValue {
    Null,
    Bool(bool),
    Text(String),
    Number(serde_json::Number),
    Json(serde_json::Value),
    /// None of the above: a float if it reads as one, else the text itself.
    Unclassified(String),
}

/// Why a variable argument was refused.
pub enum InvalidVariable {
    /// An integer that no JSON number holds.
    NumberOutOfRange,
    /// A bracketed value that is not well-formed JSON.
    MalformedJson(serde_json::Error),
}

pub open spec fn is_quoted(v: Seq<char>) -> bool {
    v.len() >= 2 && v[0] == '"' && v[v.len() - 1] == '"'
}

pub open spec fn is_bracketed(v: Seq<char>) -> bool {
    v.len() >= 1 && ((v[0] == '[' && v[v.len() - 1] == ']') || (v[0] == '{' && v[v.len() - 1] == '}'))
}

/// Whether a text is an integer that no JSON number holds.
pub open spec fn integer_out_of_range(v: Seq<char>) -> bool {
    match parsed_i128(v) {
        Some(n) => !(i64::MIN <= n <= u64::MAX),
        None => match parsed_u128(v) {
            Some(n) => n > u64::MAX,
            None => false,
        },
    }
}

pub open spec fn is_integer(v: Seq<char>) -> bool {
    parsed_i128(v) is Some || parsed_u128(v) is Some
}

/// Whether a variable's value is read without error.
pub open spec fn value_accepted(v: Seq<char>) -> bool {
    if v.len() == 0 || v == "true"@ || v == "false"@ || is_quoted(v) {
        true
    } else if is_integer(v) {
        !integer_out_of_range(v)
    } else {
        !(is_bracketed(v) && parsed_value(v) is None)
    }
}

/// What the value text of a variable argument reads as.
#[verifier::opaque]
pub open spec fn value_reads_as(v: Seq<char>, r: Result<VariableValue, InvalidVariable>) -> bool {
    if v.len() == 0 {
        r is Ok && r->Ok_0 is Null
    } else if v == "true"@ {
        r is Ok && r->Ok_0 is Bool && r->Ok_0->Bool_0
    } else if v == "false"@ {
        r is Ok && r->Ok_0 is Bool && !r->Ok_0->Bool_0
    } else if is_quoted(v) {
        r is Ok && r->Ok_0 is Text && r->Ok_0->Text_0@ == v.subrange(1, v.len() - 1)
    } else if parsed_i128(v) is Some {
        if i64::MIN <= parsed_i128(v)->Some_0 <= u64::MAX {
            r is Ok && r->Ok_0 is Number && r->Ok_0->Number_0 == json_number_of_i128(
                parsed_i128(v)->Some_0,
            )
        } else {
            r is Err && r->Err_0 is NumberOutOfRange
        }
    } else if parsed_u128(v) is Some {
        if parsed_u128(v)->Some_0 <= u64::MAX {
            r is Ok && r->Ok_0 is Number && r->Ok_0->Number_0 == json_number_of_u128(
                parsed_u128(v)->Some_0,
            )
        } else {
            r is Err && r->Err_0 is NumberOutOfRange
        }
    } else if is_bracketed(v) {
        match parsed_value(v) {
            Some(j) => r is Ok && r->Ok_0 is Json && r->Ok_0->Json_0 == j,
            None => r is Err && r->Err_0 is MalformedJson,
        }
    } else {
        r is Ok && r->Ok_0 is Unclassified && r->Ok_0->Unclassified_0@ == v
    }
}

/// What a `name=value` variable argument reads as: the name before the first
/// `=`, the value read from the text after it, and null without `=`.
pub open spec fn variable_arg_reads_as(
    arg: Seq<char>,
    r: Result<(String, VariableValue), InvalidVariable>,
) -> bool {
    match assignment_of(arg).1 {
        None => r is Ok && r->Ok_0.0@ == arg && r->Ok_0.1 is Null,
        Some(v) => match r {
            Ok(p) => p.0@ == assignment_of(arg).0 && value_reads_as(
                v,
                Ok::<VariableValue, InvalidVariable>(p.1),
            ),
            Err(e) => value_reads_as(v, Err::<VariableValue, InvalidVariable>(e)),
        },
    }
}

/// Reads the value of a variable argument: empty is null, `true` and `false`
/// are booleans, a quoted text is a string without its quotes, an integer is a
/// number, a bracketed `[..]` or `{..}` text is parsed as JSON, and anything
/// else is left for float reading.
pub fn classify_variable_value(v: &str) -> (r: Result<VariableValue, InvalidVariable>)
    ensures
        r is Ok <==> value_accepted(v@),
        value_reads_as(v@, r),
{
    proof {
        reveal_strlit("true");
        reveal_strlit("false");
        reveal(value_reads_as);
    }
    let n = v.unicode_len();
    if n == 0 {
        return Ok(VariableValue::Null);
    }
    if same_text(v, "true") {
        return Ok(VariableValue::Bool(true));
    }
    if same_text(v, "false") {
        return Ok(VariableValue::Bool(false));
    }
    let first = v.get_char(0);
    let last = v.get_char(n - 1);
    if n >= 2 && first == '"' && last == '"' {
        let inner = v.substring_char(1, n - 1);
        return Ok(VariableValue::Text(inner.to_string()));
    }
    match parse_i128(v) {
        Some(i) => {
            return match number_from_i128(i) {
                Some(num) => Ok(VariableValue::Number(num)),
                None => Err(InvalidVariable::NumberOutOfRange),
            };
        },
        None => {},
    }
    match parse_u128(v) {
        Some(u) => {
            return match number_from_u128(u) {
                Some(num) => Ok(VariableValue::Number(num)),
                None => Err(InvalidVariable::NumberOutOfRange),
            };
        },
        None => {},
    }
    if (first == '[' && last == ']') || (first == '{' && last == '}') {
        return match parse_value(v) {
            Ok(j) => Ok(VariableValue::Json(j)),
            Err(e) => Err(InvalidVariable::MalformedJson(e)),
        };
    }
    Ok(VariableValue::Unclassified(v.to_string()))
}

/// Reads a `name=value` variable argument; without `=` the value is null.
#[verifier::rlimit(60)]
pub fn parse_variable_arg(arg: &str) -> (r: Result<(String, VariableValue), InvalidVariable>)
    ensures
        variable_arg_reads_as(arg@, r),
        assignment_of(arg@).1 is Some ==> (r is Ok <==> value_accepted(assignment_of(arg@).1->Some_0)),
{
    let (name, value) = split_assignment(arg);
    match value {
        None => Ok((name, VariableValue::Null)),
        Some(v) => {
            let ghost text = v@;
            assert(assignment_of(arg@).1 == Some(text));
            let c = classify_variable_value(v.as_str());
            match c {
                Ok(x) => {
                    assert(value_reads_as(text, Ok::<VariableValue, InvalidVariable>(x)));
                    Ok((name, x))
                },
                Err(e) => {
                    assert(value_reads_as(text, Err::<VariableValue, InvalidVariable>(e)));
                    Err(e)
                },
            }
        },
    }
}

/// Reads `name=value` command-line arguments as operation variables.
#[derive(Debug, Clone, Copy)]
pub struct ClapKeyJsonValueParser;

impl ClapKeyJsonValueParser {
    pub fn parse_ref(&self, value: &str) -> (r: Result<(String, VariableValue), InvalidVariable>)
        ensures
            variable_arg_reads_as(value@, r),
            assignment_of(value@).1 is Some ==> (r is Ok <==> value_accepted(
                assignment_of(value@).1->Some_0,
            )),
    {
        parse_variable_arg(value)
    }
}

/// Reads `name=value` command-line arguments as HTTP headers.
#[derive(Debug, Clone, Copy)]
pub struct ClapHttpHeaderParser;

impl ClapHttpHeaderParser {
    pub fn parse_ref(&self, value: &str) -> (r: Result<(http::HeaderName, http::HeaderValue), InvalidHeader>)
        ensures
            header_reads_as(value@, r),
    {
        parse_header_arg(value)
    }
}

} // verus!

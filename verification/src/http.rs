//! Plain descriptions of the HTTP requests the API clients send, and the
//! JSON text of their bodies.
use vstd::prelude::*;
use crate::text::{digit_char, push_char, push_signed_decimal, push_str, signed_decimal};

verus! {

/// The HTTP methods of the management API.
#[derive(Debug, Clone, Copy, PartialEq, Eq, Structural)]
pub enum HttpMethod {
    Get,
    Post,
    Put,
    Delete,
}

/// One request to the management API: method, full URL and JSON body.
#[derive(Debug, Clone)]
pub struct ApiRequest {
    pub method: HttpMethod,
    pub url: String,
    pub body: Option<String>,
}

/// The lower-case hexadecimal digit of `d < 16`.
pub open spec fn hex_digit(d: nat) -> char {
    if d < 10 {
        digit_char(d)
    } else if d == 10 {
        'a'
    } else if d == 11 {
        'b'
    } else if d == 12 {
        'c'
    } else if d == 13 {
        'd'
    } else if d == 14 {
        'e'
    } else {
        'f'
    }
}

/// How `serde_json` writes one character inside a string literal: `"` and
/// `\` behind a backslash, `\b \t \n \f \r` for those controls, `\u00XX`
/// (lower-case hex) for the other characters below U+0020, and every other
/// character as it is.
pub open spec fn json_escape(c: char) -> Seq<char> {
    if c == '"' {
        seq!['\\', '"']
    } else if c == '\\' {
        seq!['\\', '\\']
    } else if c == '\u{8}' {
        seq!['\\', 'b']
    } else if c == '\t' {
        seq!['\\', 't']
    } else if c == '\n' {
        seq!['\\', 'n']
    } else if c == '\u{c}' {
        seq!['\\', 'f']
    } else if c == '\r' {
        seq!['\\', 'r']
    } else if (c as u32) < 0x20 {
        seq!['\\', 'u', '0', '0', hex_digit((c as u32 / 16) as nat), hex_digit((c as u32 % 16) as nat)]
    } else {
        seq![c]
    }
}

/// The characters of `s`, each escaped as in a JSON string literal.
pub open spec fn json_escaped(s: Seq<char>) -> Seq<char>
    decreases s.len(),
{
    if s.len() == 0 {
        Seq::empty()
    } else {
        json_escaped(s.drop_last()) + json_escape(s.last())
    }
}

/// The JSON string literal that `serde_json` writes for `s`: the escaped
/// characters between double quotes.
pub open spec fn json_quoted(s: Seq<char>) -> Seq<char> {
    seq!['"'] + json_escaped(s) + seq!['"']
}

/// `serde_json::to_string` of a string slice, which cannot fail: claimed to
/// give `json_quoted(s)`, the literal that `serde_json`'s compact formatter
/// writes: quotes around the characters, escaped as `json_escape` says.
#[verifier::external_body]
pub(crate) fn json_quote(s: &str) -> (r: String)
    ensures
        r@ == json_quoted(s@),
{
    serde_json::to_string(s).unwrap_or_default()
}

/// One `"key":value` member of a JSON object.
pub open spec fn json_member(field: (Seq<char>, Seq<char>)) -> Seq<char> {
    seq!['"'] + field.0 + seq!['"', ':'] + field.1
}

/// The members of a JSON object, separated by commas.
pub open spec fn json_members(fields: Seq<(Seq<char>, Seq<char>)>) -> Seq<char>
    decreases fields.len(),
{
    if fields.len() == 0 {
        Seq::empty()
    } else if fields.len() == 1 {
        json_member(fields[0])
    } else {
        json_members(fields.drop_last()) + seq![','] + json_member(fields.last())
    }
}

/// Compact JSON text of an object with the given members, in order.
pub open spec fn json_object(fields: Seq<(Seq<char>, Seq<char>)>) -> Seq<char> {
    seq!['{'] + json_members(fields) + seq!['}']
}

/// The JSON literal of a boolean.
pub open spec fn json_bool(b: bool) -> Seq<char> {
    if b {
        "true"@
    } else {
        "false"@
    }
}

/// The JSON literal of an integer.
pub open spec fn json_int(n: int) -> Seq<char> {
    signed_decimal(n)
}

/// The JSON literal `null`.
pub open spec fn json_null() -> Seq<char> {
    "null"@
}

/// The views of a list of `(key, value text)` pairs.
pub open spec fn fields_view(fields: Seq<(String, String)>) -> Seq<(Seq<char>, Seq<char>)> {
    Seq::new(fields.len(), |i: int| (fields[i].0@, fields[i].1@))
}

/// Some member of `fields` has the key `key`.
pub open spec fn has_member(fields: Seq<(Seq<char>, Seq<char>)>, key: Seq<char>) -> bool {
    exists|i: int| 0 <= i < fields.len() && #[trigger] fields[i].0 == key
}

/// Every member of `fields` with the key `key` carries `value`.
pub open spec fn member_carries(
    fields: Seq<(Seq<char>, Seq<char>)>,
    key: Seq<char>,
    value: Seq<char>,
) -> bool {
    forall|i: int| 0 <= i < fields.len() && #[trigger] fields[i].0 == key ==> fields[i].1 == value
}

/// Compact JSON text of an object whose members are `fields`, in order;
/// each value is JSON text already.
pub fn json_object_text(fields: &Vec<(String, String)>) -> (r: String)
    ensures
        r@ == json_object(fields_view(fields@)),
{
    let mut out = String::new();
    push_char(&mut out, '{');
    let mut i: usize = 0;
    while i < fields.len()
        invariant
            i <= fields@.len(),
            out@ == seq!['{'] + json_members(fields_view(fields@).take(i as int)),
        decreases fields@.len() - i,
    {
        let ghost prev = fields_view(fields@).take(i as int);
        let ghost next = fields_view(fields@).take(i + 1);
        assert(next.drop_last() =~= prev);
        if i > 0 {
            push_char(&mut out, ',');
        }
        push_char(&mut out, '"');
        push_str(&mut out, fields[i].0.as_str());
        push_char(&mut out, '"');
        push_char(&mut out, ':');
        push_str(&mut out, fields[i].1.as_str());
        proof {
            let m = json_member(next.last());
            assert(next.last() == (fields@[i as int].0@, fields@[i as int].1@));
            if i == 0 {
                assert(prev =~= Seq::<(Seq<char>, Seq<char>)>::empty());
                assert(out@ =~= seq!['{'] + m);
            } else {
                assert(out@ =~= seq!['{'] + json_members(prev) + seq![','] + m);
            }
        }
        i = i + 1;
    }
    push_char(&mut out, '}');
    assert(fields_view(fields@).take(fields@.len() as int) =~= fields_view(fields@));
    out
}

/// A `(key, value text)` member holding a JSON string.
pub fn string_field(key: &str, value: &str) -> (r: (String, String))
    ensures
        r.0@ == key@,
        r.1@ == json_quoted(value@),
{
    (String::from_str(key), json_quote(value))
}

/// A `(key, value text)` member holding a JSON integer.
pub fn int_field(key: &str, value: i32) -> (r: (String, String))
    ensures
        r.0@ == key@,
        r.1@ == json_int(value as int),
{
    let mut v = String::new();
    push_signed_decimal(&mut v, value as i64);
    assert(v@ =~= json_int(value as int));
    (String::from_str(key), v)
}

/// A `(key, value text)` member holding a JSON boolean.
pub fn bool_field(key: &str, value: bool) -> (r: (String, String))
    ensures
        r.0@ == key@,
        r.1@ == json_bool(value),
{
    let v = if value {
        String::from_str("true")
    } else {
        String::from_str("false")
    };
    (String::from_str(key), v)
}

/// The JSON text `null`.
pub fn null_text() -> (r: String)
    ensures
        r@ == json_null(),
{
    String::from_str("null")
}

} // verus!

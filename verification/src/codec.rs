//! Byte and text encodings: Base64 (through the `base64` crate) and UTF-8.
use vstd::prelude::*;
use vstd::utf8::{decode_utf8, valid_utf8};
use base64::Engine;

verus! {

/// The character of a 6-bit value in the standard Base64 alphabet:
/// `A`-`Z`, `a`-`z`, `0`-`9`, `+`, `/`.
pub open spec fn base64_char(v: nat) -> char {
    if v < 26 {
        (65 + v) as char
    } else if v < 52 {
        (97 + (v - 26)) as char
    } else if v < 62 {
        (48 + (v - 52)) as char
    } else if v == 62 {
        '+'
    } else {
        '/'
    }
}

/// The standard, padded Base64 text of `bytes`, as the `base64` crate's
/// `general_purpose::STANDARD` engine writes it: each group of three bytes
/// becomes four characters of six bits each, and a last group of one or two
/// bytes is filled with zero bits and padded with `=` to four characters.
pub open spec fn base64_encoded(bytes: Seq<u8>) -> Seq<char>
    decreases bytes.len(),
{
    if bytes.len() == 0 {
        Seq::empty()
    } else if bytes.len() == 1 {
        let a = bytes[0] as nat;
        seq![base64_char(a / 4), base64_char((a % 4) * 16), '=', '=']
    } else if bytes.len() == 2 {
        let a = bytes[0] as nat;
        let b = bytes[1] as nat;
        seq![base64_char(a / 4), base64_char((a % 4) * 16 + b / 16), base64_char((b % 16) * 4), '=']
    } else {
        let a = bytes[0] as nat;
        let b = bytes[1] as nat;
        let c = bytes[2] as nat;
        seq![
            base64_char(a / 4),
            base64_char((a % 4) * 16 + b / 16),
            base64_char((b % 16) * 4 + c / 64),
            base64_char(c % 64),
        ] + base64_encoded(bytes.skip(3))
    }
}

/// Law: Base64 text has four characters for each started group of three
/// bytes.
pub proof fn lemma_base64_length(bytes: Seq<u8>)
    ensures
        base64_encoded(bytes).len() == 4 * ((bytes.len() + 2) / 3),
    decreases bytes.len(),
{
    if bytes.len() >= 3 {
        lemma_base64_length(bytes.skip(3));
        assert(bytes.skip(3).len() == bytes.len() - 3);
    }
}

/// The bytes that the standard, padded Base64 engine decodes from `text`,
/// or `None` when it rejects the text.
pub uninterp spec fn base64_decoded(text: Seq<char>) -> Option<Seq<u8>>;

/// The text that `String::from_utf8_lossy` makes of `bytes`.
pub uninterp spec fn utf8_lossy(bytes: Seq<u8>) -> Seq<char>;

/// `general_purpose::STANDARD.encode(bytes)` of the `base64` crate: claimed
/// to give `base64_encoded(bytes)`, the standard alphabet with `=` padding.
#[verifier::external_body]
pub(crate) fn base64_encode(bytes: &[u8]) -> (r: String)
    ensures
        r@ == base64_encoded(bytes@),
{
    base64::engine::general_purpose::STANDARD.encode(bytes)
}

/// `general_purpose::STANDARD.decode(text)` of the `base64` crate, with its
/// `DecodeError` as `None`: claimed to give `base64_decoded(text)`, and, as
/// the crate documents for its engines, to decode text that the same engine
/// encoded from some bytes back to those bytes.
#[verifier::external_body]
pub(crate) fn base64_decode(text: &str) -> (r: Option<Vec<u8>>)
    ensures
        match r {
            Some(v) => base64_decoded(text@) == Some(v@),
            None => base64_decoded(text@) is None,
        },
        forall|b: Seq<u8>| text@ == #[trigger] base64_encoded(b) ==> (r is Some && r.unwrap()@ == b),
{
    base64::engine::general_purpose::STANDARD.decode(text).ok()
}

/// `String::from_utf8`, with the error as `None`: claimed, as std documents,
/// to decode exactly the valid UTF-8 byte sequences.
#[verifier::external_body]
pub(crate) fn utf8_string(bytes: Vec<u8>) -> (r: Option<String>)
    ensures
        valid_utf8(bytes@) ==> r is Some && r.unwrap()@ == decode_utf8(bytes@),
        !valid_utf8(bytes@) ==> r is None,
{
    String::from_utf8(bytes).ok()
}

/// `String::from_utf8_lossy`: claimed to give `utf8_lossy(bytes)`, which for
/// valid UTF-8 is the decoded text, as std documents; how invalid sequences
/// are replaced is left unstated.
#[verifier::external_body]
pub(crate) fn utf8_lossy_string(bytes: &[u8]) -> (r: String)
    ensures
        r@ == utf8_lossy(bytes@),
        valid_utf8(bytes@) ==> r@ == decode_utf8(bytes@),
{
    String::from_utf8_lossy(bytes).into_owned()
}

} // verus!

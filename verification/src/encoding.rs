//! The two encodings of the remote API's wire format: percent-encoding of a
//! single value, and the form encoding of a list of named values.

use vstd::prelude::*;
use vstd::utf8::encode_utf8;

verus! {

/// The upper-case hexadecimal digit of a value below 16.
pub open spec fn hex_upper(d: int) -> char {
    if d == 0 {
        '0'
    } else if d == 1 {
        '1'
    } else if d == 2 {
        '2'
    } else if d == 3 {
        '3'
    } else if d == 4 {
        '4'
    } else if d == 5 {
        '5'
    } else if d == 6 {
        '6'
    } else if d == 7 {
        '7'
    } else if d == 8 {
        '8'
    } else if d == 9 {
        '9'
    } else if d == 10 {
        'A'
    } else if d == 11 {
        'B'
    } else if d == 12 {
        'C'
    } else if d == 13 {
        'D'
    } else if d == 14 {
        'E'
    } else {
        'F'
    }
}

/// A byte as a percent sign and its two upper-case hexadecimal digits.
pub open spec fn percent_byte(b: u8) -> Seq<char> {
    seq!['%', hex_upper(b as int / 16), hex_upper(b as int % 16)]
}

/// Whether a byte is an ASCII letter or digit.
pub open spec fn is_alphanumeric(b: u8) -> bool {
    ||| 0x30 <= b <= 0x39
    ||| 0x41 <= b <= 0x5A
    ||| 0x61 <= b <= 0x7A
}

/// The bytes that percent-encoding leaves as they are: letters, digits,
/// `-`, `.`, `_` and `~`.
pub open spec fn is_unreserved(b: u8) -> bool {
    is_alphanumeric(b) || b == 0x2D || b == 0x2E || b == 0x5F || b == 0x7E
}

/// The percent-encoding of a sequence of bytes.
pub open spec fn percent_encoded(bytes: Seq<u8>) -> Seq<char>
    decreases bytes.len(),
{
    if bytes.len() == 0 {
        Seq::empty()
    } else if is_unreserved(bytes[0]) {
        seq![bytes[0] as char] + percent_encoded(bytes.skip(1))
    } else {
        percent_byte(bytes[0]) + percent_encoded(bytes.skip(1))
    }
}

/// The percent-encoding of the UTF-8 bytes of a text.
pub open spec fn url_encoded(text: Seq<char>) -> Seq<char> {
    percent_encoded(encode_utf8(text))
}

/// The bytes that the form encoding leaves as they are: letters, digits,
/// `*`, `-`, `.` and `_`.
pub open spec fn is_form_safe(b: u8) -> bool {
    is_alphanumeric(b) || b == 0x2A || b == 0x2D || b == 0x2E || b == 0x5F
}

/// The form encoding of a sequence of bytes: a space becomes `+`, and any
/// other byte that is not safe is percent-encoded.
pub open spec fn form_bytes(bytes: Seq<u8>) -> Seq<char>
    decreases bytes.len(),
{
    if bytes.len() == 0 {
        Seq::empty()
    } else if is_form_safe(bytes[0]) {
        seq![bytes[0] as char] + form_bytes(bytes.skip(1))
    } else if bytes[0] == 0x20 {
        seq!['+'] + form_bytes(bytes.skip(1))
    } else {
        percent_byte(bytes[0]) + form_bytes(bytes.skip(1))
    }
}

/// A name and a value in the form encoding, with `=` between them.
pub open spec fn form_pair(pair: (Seq<char>, Seq<char>)) -> Seq<char> {
    form_bytes(encode_utf8(pair.0)) + seq!['='] + form_bytes(encode_utf8(pair.1))
}

/// The form encoding of a list of named values: the pairs in their order,
/// with `&` between them.
pub open spec fn form_encoded(pairs: Seq<(Seq<char>, Seq<char>)>) -> Seq<char>
    decreases pairs.len(),
{
    if pairs.len() == 0 {
        Seq::empty()
    } else if pairs.len() == 1 {
        form_pair(pairs[0])
    } else {
        form_encoded(pairs.drop_last()) + seq!['&'] + form_pair(pairs.last())
    }
}

/// The model of a list of pairs of texts.
pub open spec fn pairs_view(pairs: Seq<(String, String)>) -> Seq<(Seq<char>, Seq<char>)> {
    Seq::new(pairs.len(), |i: int| (pairs[i].0@, pairs[i].1@))
}

/// Calls `urlencoding::encode`, which percent-encodes every byte of the
/// text's UTF-8 form except letters, digits, `-`, `_`, `.` and `~`, with
/// upper-case hexadecimal digits.
#[verifier::external_body]
pub(crate) fn url_encode(text: &str) -> (r: String)
    ensures
        r@ == url_encoded(text@),
{
    urlencoding::encode(text).into_owned()
}

/// Calls `serde_urlencoded::to_string` on a list of pairs of texts. For such
/// a list it does not fail: it writes each pair as name, `=` and value,
/// both in the `application/x-www-form-urlencoded` byte encoding, and puts
/// `&` between the pairs. The error, which no such list brings about, is
/// handed on by its printed message.
#[verifier::external_body]
pub(crate) fn form_encode(pairs: &Vec<(String, String)>) -> (r: Result<String, String>)
    ensures
        r is Ok,
        r->Ok_0@ == form_encoded(pairs_view(pairs@)),
{
    serde_urlencoded::to_string(pairs).map_err(|e| e.to_string())
}

} // verus!

//! JSON text for the index and manifest lines. Strings are escaped by
//! `serde_json`; numbers are written in decimal.

use vstd::prelude::*;
use vstd::string::*;
use crate::codec::opt_bytes;
use crate::text::{decimal, format_decimal, hex_digit, push_text, utf8};

verus! {

/// One byte of a string inside JSON quotes: `"` and `\` get a backslash,
/// the control characters their short escape where JSON has one and
/// `\u00` with two lower-case hexadecimal digits where it has none, and
/// every other byte is written as it is.
pub open spec fn json_byte(b: u8) -> Seq<u8> {
    if b == 0x22 {
        seq![0x5cu8, 0x22u8]
    } else if b == 0x5c {
        seq![0x5cu8, 0x5cu8]
    } else if b == 0x08 {
        seq![0x5cu8, 0x62u8]
    } else if b == 0x09 {
        seq![0x5cu8, 0x74u8]
    } else if b == 0x0a {
        seq![0x5cu8, 0x6eu8]
    } else if b == 0x0c {
        seq![0x5cu8, 0x66u8]
    } else if b == 0x0d {
        seq![0x5cu8, 0x72u8]
    } else if b < 0x20 {
        seq![0x5cu8, 0x75u8, 0x30u8, 0x30u8] + utf8(
            seq![hex_digit(b as nat / 16), hex_digit(b as nat % 16)],
        )
    } else {
        seq![b]
    }
}

/// A byte string with every byte escaped for JSON.
pub open spec fn json_escaped(bytes: Seq<u8>) -> Seq<u8>
    decreases bytes.len(),
{
    if bytes.len() == 0 {
        Seq::empty()
    } else {
        json_escaped(bytes.drop_last()) + json_byte(bytes.last())
    }
}

/// A text as a JSON string: quoted and escaped.
pub open spec fn json_string(s: Seq<char>) -> Seq<u8> {
    seq![0x22u8] + json_escaped(utf8(s)) + seq![0x22u8]
}

/// A number as JSON: its decimal numeral.
pub open spec fn json_number(n: nat) -> Seq<u8> {
    utf8(decimal(n))
}

/// An optional text as JSON: the string, or `null`.
pub open spec fn json_opt_string(s: Option<Seq<char>>) -> Seq<u8> {
    match s {
        Some(t) => json_string(t),
        None => utf8("null"@),
    }
}

/// Calls `serde_json::to_vec` on a `str`: the text in quotes, escaped as
/// [`json_string`] says. Writing a string into a vector does not fail.
#[verifier::external_body]
fn json_string_outside(s: &str) -> (r: Option<Vec<u8>>)
    ensures
        opt_bytes(r) == Some(json_string(s@)),
{
    serde_json::to_vec(s).ok()
}

/// Appends a text as a JSON string.
pub fn push_json_string(out: &mut Vec<u8>, s: &str)
    ensures
        final(out)@ == old(out)@ + json_string(s@),
{
    match json_string_outside(s) {
        Some(bytes) => out.extend_from_slice(bytes.as_slice()),
        None => {},
    }
}

/// Appends a number as JSON.
pub fn push_json_number(out: &mut Vec<u8>, n: u64)
    ensures
        final(out)@ == old(out)@ + json_number(n as nat),
{
    push_text(out, format_decimal(n).as_str());
}

} // verus!

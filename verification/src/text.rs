//! Text building blocks: decimal and hexadecimal rendering, byte-wise string
//! order, and the few string operations the rest of the crate is built on.

use vstd::prelude::*;
use vstd::string::*;
use vstd::utf8::*;

verus! {

/// The UTF-8 bytes of a text.
pub open spec fn utf8(s: Seq<char>) -> Seq<u8> {
    encode_utf8(s)
}

/// The text of an optional string.
pub open spec fn opt_text(s: Option<String>) -> Option<Seq<char>> {
    match s {
        Some(t) => Some(t@),
        None => None,
    }
}

/// The character for one decimal digit; `d` is below ten.
pub open spec fn digit_char(d: nat) -> char {
    if d == 0 {
        '0'
    } else if d == 1 {
        '1'
    } else if d == 2 {
        '2'
    } else if d == 3 {
        '3'
    } else if d == 4 {
        '4'
    } else if d == 5 {
        '5'
    } else if d == 6 {
        '6'
    } else if d == 7 {
        '7'
    } else if d == 8 {
        '8'
    } else {
        '9'
    }
}

/// The shortest decimal numeral of `n`: no sign, no leading zero, `"0"` for zero.
pub open spec fn decimal(n: nat) -> Seq<char>
    decreases n,
{
    if n < 10 {
        seq![digit_char(n)]
    } else {
        decimal(n / 10).push(digit_char(n % 10))
    }
}

/// The character for one lower-case hexadecimal digit; `d` is below sixteen.
pub open spec fn hex_digit(d: nat) -> char {
    if d < 10 {
        digit_char(d)
    } else if d == 10 {
        'a'
    } else if d == 11 {
        'b'
    } else if d == 12 {
        'c'
    } else if d == 13 {
        'd'
    } else if d == 14 {
        'e'
    } else {
        'f'
    }
}

/// Two lower-case hexadecimal digits per byte, high nibble first, no separators.
pub open spec fn hex_lower(bytes: Seq<u8>) -> Seq<char>
    decreases bytes.len(),
{
    if bytes.len() == 0 {
        Seq::empty()
    } else {
        hex_lower(bytes.drop_last()).push(hex_digit(bytes.last() as nat / 16)).push(
            hex_digit(bytes.last() as nat % 16),
        )
    }
}

/// What `str::to_lowercase` returns for a text: its Unicode lower-case mapping.
pub uninterp spec fn lowercase(s: Seq<char>) -> Seq<char>;

/// Calls `String::push`: the character is appended and nothing else changes.
#[verifier::external_body]
pub(crate) fn push_char(s: &mut String, c: char)
    ensures
        final(s)@ == old(s)@.push(c),
{
    s.push(c)
}

/// Calls `str::to_lowercase`; the result is named [`lowercase`].
#[verifier::external_body]
pub(crate) fn to_lowercase(s: &str) -> (r: String)
    ensures
        r@ == lowercase(s@),
{
    s.to_lowercase()
}

/// Calls `String::from_utf8`: the text that the bytes encode, or nothing
/// where the bytes are not UTF-8.
#[verifier::external_body]
pub(crate) fn string_from_utf8(bytes: Vec<u8>) -> (r: Option<String>)
    ensures
        r is Some <==> valid_utf8(bytes@),
        r is Some ==> r.unwrap()@ == decode_utf8(bytes@),
{
    String::from_utf8(bytes).ok()
}

/// Calls `itoa::Buffer::format` on a `u64`: the shortest decimal numeral.
#[verifier::external_body]
pub(crate) fn format_decimal(n: u64) -> (r: String)
    ensures
        r@ == decimal(n as nat),
{
    itoa::Buffer::new().format(n).to_owned()
}

/// Calls `faster_hex::hex_string`: two lower-case hexadecimal digits per
/// byte. The outside function panics when the doubled length passes
/// `isize::MAX`, so such inputs are left out.
#[verifier::external_body]
pub(crate) fn hex_string(src: &[u8]) -> (r: String)
    requires
        2 * src@.len() <= isize::MAX,
    ensures
        r@ == hex_lower(src@),
{
    faster_hex::hex_string(src)
}

/// Byte-wise lexicographic order: `a` comes before or equals `b`.
pub open spec fn bytes_le(a: Seq<u8>, b: Seq<u8>) -> bool
    decreases a.len(),
{
    if a.len() == 0 {
        true
    } else if b.len() == 0 {
        false
    } else if a[0] != b[0] {
        a[0] < b[0]
    } else {
        bytes_le(a.drop_first(), b.drop_first())
    }
}

/// The order of `str` and `String`: byte-wise over the UTF-8 encoding.
pub open spec fn text_le(a: Seq<char>, b: Seq<char>) -> bool {
    bytes_le(utf8(a), utf8(b))
}

/// Of two byte strings one comes before or equals the other.
pub proof fn lemma_bytes_le_total(a: Seq<u8>, b: Seq<u8>)
    ensures
        bytes_le(a, b) || bytes_le(b, a),
    decreases a.len(),
{
    if a.len() > 0 && b.len() > 0 && a[0] == b[0] {
        lemma_bytes_le_total(a.drop_first(), b.drop_first());
    }
}

/// The order of byte strings is transitive.
pub proof fn lemma_bytes_le_trans(a: Seq<u8>, b: Seq<u8>, c: Seq<u8>)
    requires
        bytes_le(a, b),
        bytes_le(b, c),
    ensures
        bytes_le(a, c),
    decreases a.len(),
{
    if a.len() > 0 && b.len() > 0 && c.len() > 0 && a[0] == b[0] && b[0] == c[0] {
        lemma_bytes_le_trans(a.drop_first(), b.drop_first(), c.drop_first());
    }
}

/// Two byte strings that come before or equal each other are one byte string.
pub proof fn lemma_bytes_le_antisym(a: Seq<u8>, b: Seq<u8>)
    requires
        bytes_le(a, b),
        bytes_le(b, a),
    ensures
        a == b,
    decreases a.len(),
{
    if a.len() > 0 && b.len() > 0 {
        lemma_bytes_le_antisym(a.drop_first(), b.drop_first());
        assert(b =~= seq![b[0]] + b.drop_first());
    }
}

/// Compares two byte strings: true when `a` comes before or equals `b`.
pub fn bytes_before_or_equal(a: &[u8], b: &[u8]) -> (r: bool)
    ensures
        r == bytes_le(a@, b@),
{
    let mut i: usize = 0;
    proof {
        assert(a@.skip(0) =~= a@);
        assert(b@.skip(0) =~= b@);
    }
    while i < a.len() && i < b.len()
        invariant
            i <= a@.len(),
            i <= b@.len(),
            bytes_le(a@, b@) == bytes_le(a@.skip(i as int), b@.skip(i as int)),
        decreases a@.len() - i,
    {
        if a[i] != b[i] {
            return a[i] < b[i];
        }
        proof {
            assert(a@.skip(i as int).drop_first() =~= a@.skip(i as int + 1));
            assert(b@.skip(i as int).drop_first() =~= b@.skip(i as int + 1));
        }
        i += 1;
    }
    i == a.len()
}

/// Compares two texts as `str` orders them.
pub fn text_before_or_equal(a: &str, b: &str) -> (r: bool)
    ensures
        r == text_le(a@, b@),
{
    bytes_before_or_equal(a.as_bytes(), b.as_bytes())
}

/// Appends the UTF-8 bytes of `s` to `out`.
pub fn push_text(out: &mut Vec<u8>, s: &str)
    ensures
        final(out)@ == old(out)@ + utf8(s@),
{
    out.extend_from_slice(s.as_bytes());
}

/// The characters of a text, one by one.
pub fn chars_of(s: &str) -> (r: Vec<char>)
    ensures
        r@ == s@,
{
    let mut out: Vec<char> = Vec::new();
    for c in it: s.chars()
        invariant
            out@ == it.seq().take(it.index() as int),
    {
        out.push(c);
    }
    out
}

/// The text made of the characters `chars[from..to]`, appended to `out`.
pub fn push_chars(out: &mut String, chars: &Vec<char>, from: usize, to: usize)
    requires
        from <= to <= chars@.len(),
    ensures
        final(out)@ == old(out)@ + chars@.subrange(from as int, to as int),
{
    let mut i: usize = from;
    while i < to
        invariant
            from <= i <= to <= chars@.len(),
            out@ == old(out)@ + chars@.subrange(from as int, i as int),
        decreases to - i,
    {
        push_char(out, chars[i]);
        i += 1;
    }
}

/// A decimal numeral with zeros in front, up to a width.
pub open spec fn zero_padded(n: nat, width: nat) -> Seq<char> {
    let digits = decimal(n);
    if digits.len() >= width {
        digits
    } else {
        Seq::new((width - digits.len()) as nat, |i: int| '0') + digits
    }
}

/// Writes a number in decimal, with zeros in front up to a width.
pub fn pad_decimal(n: u64, width: usize) -> (r: String)
    ensures
        r@ == zero_padded(n as nat, width as nat),
{
    let digits = format_decimal(n);
    let len = digits.as_str().unicode_len();
    let mut out = String::new();
    let mut i: usize = len;
    while i < width
        invariant
            len <= i,
            len < width ==> i <= width,
            len >= width ==> i == len,
            len == digits@.len(),
            out@ == Seq::new((i - len) as nat, |k: int| '0'),
        decreases width - i,
    {
        push_char(&mut out, '0');
        i += 1;
    }
    out.append(digits.as_str());
    out
}

} // verus!

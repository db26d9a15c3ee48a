//! Response headers as text, and media types as `neo_mime` reads them.

use vstd::prelude::*;
use vstd::string::*;
use crate::model::{headers_view, Header, HeaderView};
use crate::text::{chars_of, opt_text, push_char};

verus! {

/// A media type without its parameters, as `neo_mime` writes it; nothing
/// where the text is no media type.
pub uninterp spec fn media_essence(text: Seq<char>) -> Option<Seq<char>>;

/// Whether a media range, given as text, matches a media type, given as
/// text, as `neo_mime` decides it; nothing where one of the two cannot be
/// read.
pub uninterp spec fn media_range_matches(range: Seq<char>, media_type: Seq<char>) -> Option<bool>;

/// Calls `neo_mime::MediaType::parse`, `without_params` and `as_ref`. The
/// result is named [`media_essence`].
#[verifier::external_body]
pub(crate) fn media_essence_outside(text: &str) -> (r: Option<String>)
    ensures
        opt_text(r) == media_essence(text@),
{
    let parsed = neo_mime::MediaType::parse(text).ok()?;
    Some(parsed.without_params().as_ref().to_owned())
}

/// A range that names `*` as its type and something else as its subtype:
/// `*/` and what does not go on with another `*`.
pub open spec fn lonely_star(range: Seq<char>) -> bool {
    range.len() >= 2 && range[0] == '*' && range[1] == '/' && !(range.len() >= 3 && range[2] == '*')
}

/// Calls `neo_mime::MediaRange::parse`, `neo_mime::MediaType::parse` and
/// `MediaRange::matches`. The result is named [`media_range_matches`].
/// `matches` is not made for a range with `*` as its type and another
/// subtype, so such ranges are left out.
#[verifier::external_body]
fn media_range_matches_outside(range: &str, media_type: &str) -> (r: Option<bool>)
    requires
        !lonely_star(range@),
    ensures
        r == media_range_matches(range@, media_type@),
{
    let range = neo_mime::MediaRange::parse(range).ok()?;
    let media_type = neo_mime::MediaType::parse(media_type).ok()?;
    Some(range.matches(&media_type))
}

/// Whether a range matches a media type. A range that cannot be read
/// matches nothing, and neither does one with `*` as its type and
/// another subtype.
pub open spec fn range_matches(range: Seq<char>, media_type: Seq<char>) -> bool {
    !lonely_star(range) && media_range_matches(range, media_type) == Some(true)
}

/// Decides whether a media range matches a media type.
pub fn media_range_accepts(range: &str, media_type: &str) -> (r: bool)
    ensures
        r == range_matches(range@, media_type@),
{
    let chars = chars_of(range);
    let lonely = chars.len() >= 2 && chars[0] == '*' && chars[1] == '/' && !(chars.len() >= 3
        && chars[2] == '*');
    if lonely {
        false
    } else {
        match media_range_matches_outside(range, media_type) {
            Some(found) => found,
            None => false,
        }
    }
}

/// The value of the first header of that name, if there is one.
pub open spec fn first_value(headers: Seq<HeaderView>, name: Seq<char>) -> Option<Seq<u8>>
    decreases headers.len(),
{
    if headers.len() == 0 {
        None
    } else if headers[0].name == name {
        Some(headers[0].value)
    } else {
        first_value(headers.drop_first(), name)
    }
}

/// A byte that may stand in a header value read as text: a tab, or a
/// printable ASCII character.
pub open spec fn is_visible(b: u8) -> bool {
    b == 9 || (32 <= b && b < 127)
}

/// A header value as text: its bytes as characters where all of them are
/// visible, nothing otherwise.
pub open spec fn visible_text(value: Seq<u8>) -> Option<Seq<char>> {
    if forall|i: int| 0 <= i < value.len() ==> is_visible(#[trigger] value[i]) {
        Some(Seq::new(value.len(), |i: int| value[i] as char))
    } else {
        None
    }
}

/// The media type that a response declares: the first `content-type`
/// header, read as text.
pub open spec fn declared_type(headers: Seq<HeaderView>) -> Option<Seq<char>> {
    match first_value(headers, "content-type"@) {
        Some(value) => visible_text(value),
        None => None,
    }
}

/// The media type of a response without parameters, where it declares one
/// that can be read.
pub open spec fn declared_essence(headers: Seq<HeaderView>) -> Option<Seq<char>> {
    match declared_type(headers) {
        Some(text) => media_essence(text),
        None => None,
    }
}

/// Finds the value of the first header of that name. Names are compared
/// as they stand: response headers carry theirs in lower case.
pub fn find_header<'a>(headers: &'a Vec<Header>, name: &str) -> (r: Option<&'a Vec<u8>>)
    ensures
        match r {
            Some(value) => first_value(headers_view(headers@), name@) == Some(value@),
            None => first_value(headers_view(headers@), name@) is None,
        },
{
    let wanted = String::from_str(name);
    let ghost all = headers_view(headers@);
    let mut i: usize = 0;
    proof {
        assert(all.skip(0) =~= all);
    }
    while i < headers.len()
        invariant
            i <= headers@.len(),
            all == headers_view(headers@),
            wanted@ == name@,
            first_value(all, name@) == first_value(all.skip(i as int), name@),
        decreases headers@.len() - i,
    {
        if headers[i].name == wanted {
            return Some(&headers[i].value);
        }
        proof {
            assert(all.skip(i as int).drop_first() =~= all.skip(i as int + 1));
        }
        i += 1;
    }
    None
}

/// Reads a header value as text. Nothing where a byte is not visible.
pub fn header_text(value: &[u8]) -> (r: Option<String>)
    ensures
        opt_text(r) == visible_text(value@),
{
    let mut out = String::new();
    let mut i: usize = 0;
    while i < value.len()
        invariant
            i <= value@.len(),
            out@.len() == i,
            forall|k: int| 0 <= k < i ==> is_visible(#[trigger] value@[k]),
            forall|k: int| 0 <= k < i ==> out@[k] == value@[k] as char,
        decreases value@.len() - i,
    {
        let b = value[i];
        if !(b == 9 || (32 <= b && b < 127)) {
            return None;
        }
        push_char(&mut out, b as char);
        i += 1;
    }
    Some(out)
}

/// The declared media type of a response, as text.
pub fn content_type(headers: &Vec<Header>) -> (r: Option<String>)
    ensures
        opt_text(r) == declared_type(headers_view(headers@)),
{
    match find_header(headers, "content-type") {
        Some(value) => header_text(value.as_slice()),
        None => None,
    }
}

/// The media type of a response without its parameters.
pub fn content_essence(headers: &Vec<Header>) -> (r: Option<String>)
    ensures
        opt_text(r) == declared_essence(headers_view(headers@)),
{
    match content_type(headers) {
        Some(text) => media_essence_outside(text.as_str()),
        None => None,
    }
}

} // verus!

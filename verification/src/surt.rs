//! SURT keys: the canonical, sort-friendly form of a URL under which the
//! archive stores a response.

use vstd::prelude::*;
use vstd::string::*;
use crate::order::{
    lemma_insert_sorted_split, lemma_stable_sort_ordered, lemma_stable_sort_permutes, ordered,
    stable_sort,
};
use crate::text::{
    chars_of, decimal, digit_char, format_decimal, lemma_bytes_le_total, lemma_bytes_le_trans,
    lowercase, opt_text, push_char, push_chars, text_before_or_equal, text_le, to_lowercase, utf8,
};
use crate::model::{hop_of, UrlInfoView};
use crate::url::{
    host_after_set, pairs_view, url_host_after_set, url_join, HostKind, Url, UrlView,
};

verus! {

/// One name/value pair of a query, as text.
pub type PairText = (Seq<char>, Seq<char>);

/// An ASCII decimal digit.
pub open spec fn is_digit(c: char) -> bool {
    '0' <= c && c <= '9'
}

/// The first position at or behind `from` that holds no digit.
pub open spec fn digits_end(s: Seq<char>, from: int) -> int
    decreases s.len() - from,
{
    if 0 <= from < s.len() && is_digit(s[from]) {
        digits_end(s, from + 1)
    } else {
        from
    }
}

/// The length of a leading `www` label, with or without a number: `www.`,
/// `www2.`, `www23.`. Nothing where the host does not start with one.
pub open spec fn www_prefix_len(host: Seq<char>) -> Option<int> {
    if host.len() >= 3 && host[0] == 'w' && host[1] == 'w' && host[2] == 'w' {
        let j = digits_end(host, 3);
        if j < host.len() && host[j] == '.' {
            Some(j + 1)
        } else {
            None
        }
    } else {
        None
    }
}

/// The host without its leading `www` label, where it has one.
pub open spec fn without_www(host: Seq<char>) -> Option<Seq<char>> {
    match www_prefix_len(host) {
        Some(k) => Some(host.skip(k)),
        None => None,
    }
}

/// Where the last label of a host starts: behind its last dot, or at 0.
pub open spec fn last_label_start(s: Seq<char>) -> int
    decreases s.len(),
{
    if s.len() == 0 {
        0
    } else if s.last() == '.' {
        s.len() as int
    } else {
        last_label_start(s.drop_last())
    }
}

/// The labels of a host in reverse order, joined by commas:
/// `example.com` becomes `com,example`.
pub open spec fn reversed_labels(s: Seq<char>) -> Seq<char>
    decreases s.len(),
{
    let k = last_label_start(s);
    if 0 < k <= s.len() {
        s.skip(k) + seq![','] + reversed_labels(s.take(k - 1))
    } else {
        s
    }
}

/// A byte that form encoding writes as it is: `*`, `-`, `.`, `_`, an ASCII
/// digit or an ASCII letter.
pub open spec fn form_unchanged(b: u8) -> bool {
    b == 0x2a || b == 0x2d || b == 0x2e || b == 0x5f || (0x30 <= b <= 0x39) || (0x41 <= b <= 0x5a)
        || (0x61 <= b <= 0x7a)
}

/// The character for one upper-case hexadecimal digit; `d` is below sixteen.
pub open spec fn hex_upper_digit(d: nat) -> char {
    if d < 10 {
        digit_char(d)
    } else if d == 10 {
        'A'
    } else if d == 11 {
        'B'
    } else if d == 12 {
        'C'
    } else if d == 13 {
        'D'
    } else if d == 14 {
        'E'
    } else {
        'F'
    }
}

/// One byte in `application/x-www-form-urlencoded` form: itself, `+` for a
/// space, or `%` and two upper-case hexadecimal digits.
pub open spec fn form_byte(b: u8) -> Seq<char> {
    if form_unchanged(b) {
        seq![b as char]
    } else if b == 0x20 {
        seq!['+']
    } else {
        seq!['%', hex_upper_digit(b as nat / 16), hex_upper_digit(b as nat % 16)]
    }
}

/// A byte string in form encoding.
pub open spec fn form_bytes(bytes: Seq<u8>) -> Seq<char>
    decreases bytes.len(),
{
    if bytes.len() == 0 {
        Seq::empty()
    } else {
        form_bytes(bytes.drop_last()) + form_byte(bytes.last())
    }
}

/// One pair in form encoding: name, `=`, value.
pub open spec fn form_pair(p: PairText) -> Seq<char> {
    form_bytes(utf8(p.0)) + seq!['='] + form_bytes(utf8(p.1))
}

/// A list of pairs in form encoding, joined by `&`.
pub open spec fn form_pairs(pairs: Seq<PairText>) -> Seq<char>
    decreases pairs.len(),
{
    if pairs.len() == 0 {
        Seq::empty()
    } else if pairs.len() == 1 {
        form_pair(pairs[0])
    } else {
        form_pairs(pairs.drop_last()) + seq!['&'] + form_pair(pairs.last())
    }
}

/// Pairs are compared by their names alone, as strings are.
pub open spec fn name_le(a: PairText, b: PairText) -> bool {
    text_le(a.0, b.0)
}

/// The pairs with names and values in lower case.
pub open spec fn lowered(pairs: Seq<PairText>) -> Seq<PairText> {
    Seq::new(pairs.len(), |i: int| (lowercase(pairs[i].0), lowercase(pairs[i].1)))
}

/// The pairs of a key's query: lower-cased, then sorted by name, pairs of
/// one name in the order they had.
pub open spec fn canonical_pairs(pairs: Seq<PairText>) -> Seq<PairText> {
    stable_sort(|a: PairText, b: PairText| name_le(a, b), lowered(pairs))
}

/// The port of a key: a colon and the number, or nothing.
pub open spec fn port_text(port: Option<u16>) -> Seq<char> {
    match port {
        Some(p) => seq![':'] + decimal(p as nat),
        None => Seq::empty(),
    }
}

/// The query of a key: a question mark and the encoded pairs, or nothing
/// where there is no pair.
pub open spec fn query_text(pairs: Seq<PairText>) -> Seq<char> {
    let q = form_pairs(pairs);
    if q.len() == 0 {
        Seq::empty()
    } else {
        seq!['?'] + q
    }
}

/// A key put together from its parts: the host's labels reversed, the port,
/// a closing bracket, the path, the query.
pub open spec fn assembled(
    host: Seq<char>,
    port: Option<u16>,
    path: Seq<char>,
    pairs: Seq<PairText>,
) -> Seq<char> {
    reversed_labels(host) + port_text(port) + seq![')'] + path + query_text(pairs)
}

/// The host that a key is built from: a domain loses its leading `www`
/// label where the URL accepts the rest as its host; any other host stays;
/// a missing host is empty.
pub open spec fn canonical_host(u: UrlView) -> Seq<char> {
    match u.host {
        None => Seq::empty(),
        Some(h) => if u.host_kind == HostKind::Domain {
            match without_www(h) {
                Some(rest) => match url_host_after_set(u.text, rest) {
                    Some(changed) => changed,
                    None => h,
                },
                None => h,
            }
        } else {
            h
        },
    }
}

/// The SURT key of a URL.
pub open spec fn surt_text(u: UrlView) -> Seq<char> {
    assembled(canonical_host(u), u.port, u.path, canonical_pairs(u.query_pairs))
}

/// Calls `url::form_urlencoded::Serializer::extend_pairs` on an empty
/// target and `finish`: each pair is written as name, `=`, value, pairs are
/// joined by `&`, and every byte but `*-._`, digits and letters is escaped.
#[verifier::external_body]
fn encode_pairs_outside(pairs: &Vec<(String, String)>) -> (r: String)
    ensures
        r@ == form_pairs(pairs_view(pairs@)),
{
    url::form_urlencoded::Serializer::new(String::new()).extend_pairs(pairs).finish()
}

/// Strips a leading `www` label, with or without a number, from a host.
/// Returns nothing where the host has none.
pub fn strip_www(host: &str) -> (r: Option<String>)
    ensures
        opt_text(r) == without_www(host@),
{
    let chars = chars_of(host);
    let n = chars.len();
    if n < 3 || chars[0] != 'w' || chars[1] != 'w' || chars[2] != 'w' {
        return None;
    }
    let mut j: usize = 3;
    while j < n && '0' <= chars[j] && chars[j] <= '9'
        invariant
            3 <= j <= n,
            n == chars@.len(),
            digits_end(chars@, 3) == digits_end(chars@, j as int),
        decreases n - j,
    {
        j += 1;
    }
    if j < n && chars[j] == '.' {
        let mut out = String::new();
        push_chars(&mut out, &chars, j + 1, n);
        Some(out)
    } else {
        None
    }
}

/// Appends the labels of `host` in reverse order, joined by commas.
pub fn push_reversed_labels(out: &mut String, host: &Vec<char>)
    ensures
        final(out)@ == old(out)@ + reversed_labels(host@),
{
    let mut end: usize = host.len();
    proof {
        assert(host@.take(end as int) =~= host@);
    }
    loop
        invariant_except_break
            end <= host@.len(),
            old(out)@ + reversed_labels(host@) == out@ + reversed_labels(host@.take(end as int)),
        ensures
            out@ == old(out)@ + reversed_labels(host@),
        decreases end,
    {
        let ghost part = host@.take(end as int);
        let mut k: usize = end;
        while k > 0 && host[k - 1] != '.'
            invariant
                k <= end <= host@.len(),
                part == host@.take(end as int),
                last_label_start(part) == last_label_start(host@.take(k as int)),
            decreases k,
        {
            proof {
                assert(host@.take(k as int).drop_last() =~= host@.take(k as int - 1));
            }
            k -= 1;
        }
        push_chars(out, host, k, end);
        if k == 0 {
            break;
        }
        push_char(out, ',');
        proof {
            assert(part.take(k as int - 1) =~= host@.take(k as int - 1));
        }
        end = k - 1;
    }
}

/// Puts a key together from its parts. `pairs` are written in the order
/// given, in form encoding.
pub fn assemble(host: &str, port: Option<u16>, path: &str, pairs: &Vec<(String, String)>) -> (r:
    String)
    ensures
        r@ == assembled(host@, port, path@, pairs_view(pairs@)),
{
    let mut out = String::new();
    let chars = chars_of(host);
    push_reversed_labels(&mut out, &chars);
    if let Some(p) = port {
        push_char(&mut out, ':');
        let digits = format_decimal(p as u64);
        out.append(digits.as_str());
    }
    push_char(&mut out, ')');
    out.append(path);
    let query = encode_pairs_outside(pairs);
    if query.as_str().unicode_len() > 0 {
        push_char(&mut out, '?');
        out.append(query.as_str());
    }
    out
}

/// The name and the value of every pair in lower case.
pub fn lowercase_pairs(pairs: &Vec<(String, String)>) -> (r: Vec<(String, String)>)
    ensures
        pairs_view(r@) == lowered(pairs_view(pairs@)),
{
    let mut out: Vec<(String, String)> = Vec::new();
    let mut i: usize = 0;
    while i < pairs.len()
        invariant
            i <= pairs@.len(),
            out@.len() == i,
            forall|k: int|
                0 <= k < i ==> out@[k].0@ == lowercase(pairs@[k].0@) && out@[k].1@ == lowercase(
                    pairs@[k].1@,
                ),
        decreases pairs@.len() - i,
    {
        let name = to_lowercase(pairs[i].0.as_str());
        let value = to_lowercase(pairs[i].1.as_str());
        out.push((name, value));
        i += 1;
    }
    out
}

/// Sorts pairs by name; pairs of one name keep the order they had.
pub fn sort_pairs_by_name(pairs: Vec<(String, String)>) -> (r: Vec<(String, String)>)
    ensures
        pairs_view(r@) == stable_sort(
            |a: PairText, b: PairText| name_le(a, b),
            pairs_view(pairs@),
        ),
{
    let ghost le = |a: PairText, b: PairText| name_le(a, b);
    let ghost all = pairs_view(pairs@);
    let mut out: Vec<(String, String)> = Vec::new();
    let mut rest = pairs;
    let n = rest.len();
    let mut i: usize = 0;
    while i < n
        invariant
            i <= n,
            n == all.len(),
            n == pairs@.len(),
            rest@.len() == n,
            le == (|a: PairText, b: PairText| name_le(a, b)),
            all == pairs_view(pairs@),
            forall|k: int| i <= k < n ==> rest@[k] == pairs@[k],
            pairs_view(out@) == stable_sort(le, all.take(i as int)),
        decreases n - i,
    {
        let mut item: (String, String) = (String::new(), String::new());
        std::mem::swap(&mut item, &mut rest[i]);
        let ghost sorted = pairs_view(out@);
        let ghost x: PairText = (item.0@, item.1@);
        let mut k: usize = out.len();
        while k > 0 && !text_before_or_equal(out[k - 1].0.as_str(), item.0.as_str())
            invariant
                k <= out@.len(),
                sorted == pairs_view(out@),
                x == (item.0@, item.1@),
                le == (|a: PairText, b: PairText| name_le(a, b)),
                forall|m: int| k <= m < sorted.len() ==> !#[trigger] le(sorted[m], x),
            decreases k,
        {
            k -= 1;
        }
        proof {
            lemma_insert_sorted_split(le, sorted, x, k as int);
            assert(all.take(i as int + 1).drop_last() =~= all.take(i as int));
        }
        out.insert(k, item);
        i += 1;
    }
    proof {
        assert(all.take(n as int) =~= all);
    }
    out
}

/// Writes the SURT key of a URL: the host without a leading `www` label
/// and with its labels reversed, the port where it is not the scheme's
/// own, `)`, the path, and the query with names and values in lower case,
/// sorted by name.
pub fn surt(url: Url) -> (r: String)
    ensures
        r@ == surt_text(url@),
{
    let host: String = match &url.host {
        None => String::new(),
        Some(h) => {
            let mut kept = h.clone();
            if url.host_kind == HostKind::Domain {
                if let Some(rest) = strip_www(h.as_str()) {
                    if let Some(changed) = host_after_set(url.text.as_str(), rest.as_str()) {
                        kept = changed;
                    }
                }
            }
            kept
        },
    };
    let pairs = sort_pairs_by_name(lowercase_pairs(&url.query_pairs));
    assemble(host.as_str(), url.port, url.path.as_str(), &pairs)
}

/// The pairs of a key's query stand in the order of their names, and they
/// are the lower-cased pairs of the URL, each as often as it came.
pub proof fn lemma_canonical_pairs_ordered(pairs: Seq<PairText>)
    ensures
        ordered(|a: PairText, b: PairText| name_le(a, b), canonical_pairs(pairs)),
        canonical_pairs(pairs).to_multiset() == lowered(pairs).to_multiset(),
{
    let le = |a: PairText, b: PairText| name_le(a, b);
    assert forall|a: PairText, b: PairText| #[trigger] le(a, b) || #[trigger] le(b, a) by {
        lemma_bytes_le_total(utf8(a.0), utf8(b.0));
    }
    assert forall|a: PairText, b: PairText, c: PairText| #[trigger] le(a, b) && #[trigger] le(
        b,
        c,
    ) implies le(a, c) by {
        lemma_bytes_le_trans(utf8(a.0), utf8(b.0), utf8(c.0));
    }
    lemma_stable_sort_ordered(le, lowered(pairs));
    lemma_stable_sort_permutes(le, lowered(pairs));
}

/// Following a link keys the response as the joined URL is keyed: the key
/// of where a hop leads is the key of the link read against the URL it
/// was found at.
pub proof fn lemma_surt_of_hop(from: UrlInfoView, reference: Seq<char>)
    requires
        hop_of(from, reference) is Some,
    ensures
        url_join(from.url.text, reference) is Some,
        surt_text(hop_of(from, reference).unwrap().url) == surt_text(
            url_join(from.url.text, reference).unwrap(),
        ),
        hop_of(from, reference).unwrap().discovered_in == from.url,
{
}

} // verus!

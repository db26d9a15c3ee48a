//! URLs as the crawler sees them: the parts that keys, hops and records are
//! built from, held as plain values. Parsing and joining are done by the
//! `url` crate.

use vstd::prelude::*;
use crate::text::opt_text;

verus! {

/// What kind of host a URL names.
#[derive(Clone, Copy, Debug, PartialEq, Eq, Structural)]
pub enum HostKind {
    /// No host at all, as in `data:` and `mailto:` URLs.
    Missing,
    /// A domain name.
    Domain,
    /// An IPv4 address.
    Ipv4,
    /// An IPv6 address.
    Ipv6,
}

/// A parsed absolute URL.
#[derive(Debug)]
pub struct Url {
    /// The serialization of the whole URL.
    pub text: String,
    /// The kind of host.
    pub host_kind: HostKind,
    /// The host as it stands in `text`, if there is one.
    pub host: Option<String>,
    /// The port, unless it is the default of the scheme.
    pub port: Option<u16>,
    /// The path.
    pub path: String,
    /// The name/value pairs of the query, percent-decoded, in their order.
    pub query_pairs: Vec<(String, String)>,
}

/// The mathematical value of a [`Url`].
pub ghost struct UrlView {
    pub text: Seq<char>,
    pub host_kind: HostKind,
    pub host: Option<Seq<char>>,
    pub port: Option<u16>,
    pub path: Seq<char>,
    pub query_pairs: Seq<(Seq<char>, Seq<char>)>,
}

/// The texts of a list of name/value pairs.
pub open spec fn pairs_view(v: Seq<(String, String)>) -> Seq<(Seq<char>, Seq<char>)> {
    Seq::new(v.len(), |i: int| (v[i].0@, v[i].1@))
}

impl View for Url {
    type V = UrlView;

    open spec fn view(&self) -> UrlView {
        UrlView {
            text: self.text@,
            host_kind: self.host_kind,
            host: opt_text(self.host),
            port: self.port,
            path: self.path@,
            query_pairs: pairs_view(self.query_pairs@),
        }
    }
}

/// The value of an optional [`Url`].
pub open spec fn opt_url_view(u: Option<Url>) -> Option<UrlView> {
    match u {
        Some(v) => Some(v@),
        None => None,
    }
}

/// What `url::Url::parse` makes of a text: the parsed URL, or nothing where
/// the text is no absolute URL.
pub uninterp spec fn url_parse(input: Seq<char>) -> Option<UrlView>;

/// What `url::Url::join` makes of a reference read against the URL whose
/// serialization is `base`.
pub uninterp spec fn url_join(base: Seq<char>, reference: Seq<char>) -> Option<UrlView>;

/// The host of the URL whose serialization is `base` after
/// `url::Url::set_host` has been given `host`, or nothing where it refuses.
pub uninterp spec fn url_host_after_set(base: Seq<char>, host: Seq<char>) -> Option<Seq<char>>;

/// Two URLs name the same host: the same kind and the same text, or none both.
pub open spec fn same_host(a: UrlView, b: UrlView) -> bool {
    a.host_kind == b.host_kind && a.host == b.host
}

/// Calls `url::Url::parse` and reads the parts of its result through
/// `as_str`, `host`, `host_str`, `port`, `path` and `query_pairs`. The
/// result is named [`url_parse`].
#[verifier::external_body]
fn parse_outside(input: &str) -> (r: Option<Url>)
    ensures
        opt_url_view(r) == url_parse(input@),
{
    let u = url::Url::parse(input).ok()?;
    Some(Url {
        text: u.as_str().to_owned(),
        host_kind: match u.host() {
            None => HostKind::Missing,
            Some(url::Host::Domain(_)) => HostKind::Domain,
            Some(url::Host::Ipv4(_)) => HostKind::Ipv4,
            Some(url::Host::Ipv6(_)) => HostKind::Ipv6,
        },
        host: u.host_str().map(str::to_owned),
        port: u.port(),
        path: u.path().to_owned(),
        query_pairs: u.query_pairs().into_owned().collect(),
    })
}

/// Calls `url::Url::join` on the URL that `url::Url::parse` reads from
/// `base`, and reads the parts of its result as [`parse_outside`] does. The
/// result is named [`url_join`].
#[verifier::external_body]
fn join_outside(base: &str, reference: &str) -> (r: Option<Url>)
    ensures
        opt_url_view(r) == url_join(base@, reference@),
{
    let u = url::Url::parse(base).ok()?.join(reference).ok()?;
    Some(Url {
        text: u.as_str().to_owned(),
        host_kind: match u.host() {
            None => HostKind::Missing,
            Some(url::Host::Domain(_)) => HostKind::Domain,
            Some(url::Host::Ipv4(_)) => HostKind::Ipv4,
            Some(url::Host::Ipv6(_)) => HostKind::Ipv6,
        },
        host: u.host_str().map(str::to_owned),
        port: u.port(),
        path: u.path().to_owned(),
        query_pairs: u.query_pairs().into_owned().collect(),
    })
}

/// Calls `url::Url::set_host` on the URL that `url::Url::parse` reads from
/// `base` and hands back `host_str` of the changed URL. The result is named
/// [`url_host_after_set`].
#[verifier::external_body]
pub(crate) fn host_after_set(base: &str, host: &str) -> (r: Option<String>)
    ensures
        opt_text(r) == url_host_after_set(base@, host@),
{
    let mut u = url::Url::parse(base).ok()?;
    u.set_host(Some(host)).ok()?;
    u.host_str().map(str::to_owned)
}

/// Copies a list of name/value pairs.
fn clone_pairs(pairs: &Vec<(String, String)>) -> (r: Vec<(String, String)>)
    ensures
        pairs_view(r@) == pairs_view(pairs@),
{
    let mut out: Vec<(String, String)> = Vec::new();
    let mut i: usize = 0;
    while i < pairs.len()
        invariant
            i <= pairs@.len(),
            out@.len() == i,
            forall|k: int| 0 <= k < i ==> out@[k].0@ == pairs@[k].0@ && out@[k].1@ == pairs@[k].1@,
        decreases pairs@.len() - i,
    {
        out.push((pairs[i].0.clone(), pairs[i].1.clone()));
        i += 1;
    }
    out
}

/// Copies an optional string.
fn clone_opt_string(s: &Option<String>) -> (r: Option<String>)
    ensures
        opt_text(r) == opt_text(*s),
{
    match s {
        Some(t) => Some(t.clone()),
        None => None,
    }
}

/// Whether two optional strings hold the same text, or nothing both.
fn opt_string_eq(a: &Option<String>, b: &Option<String>) -> (r: bool)
    ensures
        r == (opt_text(*a) == opt_text(*b)),
{
    match (a, b) {
        (Some(x), Some(y)) => *x == *y,
        (None, None) => true,
        _ => false,
    }
}

impl Clone for Url {
    fn clone(&self) -> (r: Self)
        ensures
            r@ == self@,
    {
        Url {
            text: self.text.clone(),
            host_kind: self.host_kind,
            host: clone_opt_string(&self.host),
            port: self.port,
            path: self.path.clone(),
            query_pairs: clone_pairs(&self.query_pairs),
        }
    }
}

impl Url {
    /// Parses an absolute URL. Returns nothing where the text is none.
    pub fn parse(input: &str) -> (r: Option<Url>)
        ensures
            opt_url_view(r) == url_parse(input@),
    {
        parse_outside(input)
    }

    /// Reads `reference` against this URL, as a link found in the page at
    /// this URL is read. Returns nothing where the two give no URL.
    pub fn join(&self, reference: &str) -> (r: Option<Url>)
        ensures
            opt_url_view(r) == url_join(self@.text, reference@),
    {
        join_outside(self.text.as_str(), reference)
    }

    /// The serialization of the URL.
    pub fn as_str(&self) -> (r: &str)
        ensures
            r@ == self@.text,
    {
        self.text.as_str()
    }

    /// Whether this URL and `other` name the same host.
    pub fn has_same_host(&self, other: &Url) -> (r: bool)
        ensures
            r == same_host(self@, other@),
    {
        self.host_kind == other.host_kind && opt_string_eq(&self.host, &other.host)
    }
}

} // verus!

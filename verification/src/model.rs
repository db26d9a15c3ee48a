//! The data the crawler and the exporter pass around: where a URL was
//! found, what a response said about itself, and what went wrong.

use vstd::prelude::*;
use vstd::string::*;
use crate::text::{decimal, format_decimal, hex_lower, opt_text};
use crate::url::{same_host, url_join, url_parse, Url, UrlView};

verus! {

/// What `time` writes for a UTC instant, given in nanoseconds since the
/// Unix epoch, in the RFC 3339 format; nothing where the instant lies
/// outside the years it can write.
pub uninterp spec fn rfc3339(unix_nanos: int) -> Option<Seq<char>>;

/// What `time` writes for a UTC instant under a format description; nothing
/// where the instant or the description is out of its range.
pub uninterp spec fn time_formatted(unix_nanos: int, description: Seq<char>) -> Option<Seq<char>>;

/// Calls `time::OffsetDateTime::from_unix_timestamp_nanos` and `format`
/// with `Rfc3339`. The result is named [`rfc3339`].
#[verifier::external_body]
fn rfc3339_outside(unix_nanos: i128) -> (r: Option<String>)
    ensures
        opt_text(r) == rfc3339(unix_nanos as int),
{
    let at = time::OffsetDateTime::from_unix_timestamp_nanos(unix_nanos).ok()?;
    at.format(&time::format_description::well_known::Rfc3339).ok()
}

/// Calls `time::OffsetDateTime::from_unix_timestamp_nanos` and `format`
/// with what `time::format_description::parse_borrowed` reads from
/// `description`. The result is named [`time_formatted`].
#[verifier::external_body]
fn time_formatted_outside(unix_nanos: i128, description: &str) -> (r: Option<String>)
    ensures
        opt_text(r) == time_formatted(unix_nanos as int, description@),
{
    let at = time::OffsetDateTime::from_unix_timestamp_nanos(unix_nanos).ok()?;
    let items = time::format_description::parse_borrowed::<1>(description).ok()?;
    at.format(&items).ok()
}

/// The format of the time column of a CDXJ line: fourteen digits.
pub open spec fn compact_description() -> Seq<char> {
    "[year][month][day][hour repr:24][minute][second]"@
}

/// The RFC 3339 text of an instant, empty where it has none.
pub open spec fn rfc3339_text(unix_nanos: int) -> Seq<char> {
    match rfc3339(unix_nanos) {
        Some(t) => t,
        None => Seq::empty(),
    }
}

/// The fourteen-digit text of an instant, empty where it has none.
pub open spec fn compact_text(unix_nanos: int) -> Seq<char> {
    match time_formatted(unix_nanos, compact_description()) {
        Some(t) => t,
        None => Seq::empty(),
    }
}

/// A UTC instant that can be written both as RFC 3339 and as the fourteen
/// digits of a CDXJ line. Its value is the number of nanoseconds since the
/// Unix epoch.
#[derive(Debug)]
pub struct Timestamp {
    unix_nanos: i128,
    rfc3339: String,
    compact: String,
}

impl View for Timestamp {
    type V = int;

    closed spec fn view(&self) -> int {
        self.unix_nanos as int
    }
}

impl Timestamp {
    #[verifier::type_invariant]
    spec fn inv(&self) -> bool {
        &&& rfc3339(self.unix_nanos as int) == Some(self.rfc3339@)
        &&& time_formatted(self.unix_nanos as int, compact_description()) == Some(self.compact@)
    }

    /// The instant `unix_nanos` nanoseconds after the Unix epoch. Nothing
    /// where one of the two formats cannot write it.
    pub fn from_unix_nanos(unix_nanos: i128) -> (r: Option<Timestamp>)
        ensures
            r is Some <==> rfc3339(unix_nanos as int) is Some && time_formatted(
                unix_nanos as int,
                compact_description(),
            ) is Some,
            r is Some ==> r.unwrap()@ == unix_nanos,
    {
        let long = rfc3339_outside(unix_nanos);
        let short = time_formatted_outside(
            unix_nanos,
            "[year][month][day][hour repr:24][minute][second]",
        );
        match (long, short) {
            (Some(rfc3339), Some(compact)) => Some(Timestamp { unix_nanos, rfc3339, compact }),
            _ => None,
        }
    }

    /// Nanoseconds since the Unix epoch.
    pub fn unix_nanos(&self) -> (r: i128)
        ensures
            r as int == self@,
    {
        self.unix_nanos
    }

    /// The instant in RFC 3339, as in `2023-08-15T12:34:56Z`.
    pub fn rfc3339(&self) -> (r: &str)
        ensures
            r@ == rfc3339_text(self@),
            rfc3339(self@) is Some,
    {
        proof {
            use_type_invariant(self);
        }
        self.rfc3339.as_str()
    }

    /// The instant as fourteen digits, as in `20230815123456`.
    pub fn compact(&self) -> (r: &str)
        ensures
            r@ == compact_text(self@),
            time_formatted(self@, compact_description()) is Some,
    {
        proof {
            use_type_invariant(self);
        }
        self.compact.as_str()
    }

    /// Whether this instant is not later than `other`.
    pub fn not_after(&self, other: &Timestamp) -> (r: bool)
        ensures
            r == (self@ <= other@),
    {
        self.unix_nanos <= other.unix_nanos
    }
}

impl Clone for Timestamp {
    fn clone(&self) -> (r: Self)
        ensures
            r@ == self@,
    {
        proof {
            use_type_invariant(self);
        }
        Timestamp {
            unix_nanos: self.unix_nanos,
            rfc3339: self.rfc3339.clone(),
            compact: self.compact.clone(),
        }
    }
}

/// A record id written the way a UUID is: thirty-two lower-case
/// hexadecimal digits in groups of 8, 4, 4, 4 and 12, joined by hyphens.
pub open spec fn hyphenated(id: Seq<u8>) -> Seq<char> {
    hex_lower(id.subrange(0, 4)) + seq!['-'] + hex_lower(id.subrange(4, 6)) + seq!['-']
        + hex_lower(id.subrange(6, 8)) + seq!['-'] + hex_lower(id.subrange(8, 10)) + seq!['-']
        + hex_lower(id.subrange(10, 16))
}

/// Calls `uuid::Uuid::from_bytes`, `hyphenated` and `to_string`: the
/// sixteen bytes in lower-case hexadecimal, grouped 8-4-4-4-12.
#[verifier::external_body]
pub(crate) fn hyphenated_outside(id: &[u8; 16]) -> (r: String)
    ensures
        r@ == hyphenated(id@),
{
    uuid::Uuid::from_bytes(*id).hyphenated().to_string()
}

/// A URL together with where and how far from a seed it was found.
#[derive(Debug)]
pub struct UrlInfo {
    /// The URL itself.
    pub url: Url,
    /// The URL of the page that led to it; for a seed, the seed itself.
    pub discovered_in: Url,
    /// How many times the way from the seed crossed to another host.
    pub hops: usize,
}

/// The mathematical value of a [`UrlInfo`].
pub ghost struct UrlInfoView {
    pub url: UrlView,
    pub discovered_in: UrlView,
    pub hops: nat,
}

impl View for UrlInfo {
    type V = UrlInfoView;

    open spec fn view(&self) -> UrlInfoView {
        UrlInfoView { url: self.url@, discovered_in: self.discovered_in@, hops: self.hops as nat }
    }
}

/// The value of an optional [`UrlInfo`].
pub open spec fn opt_info_view(i: Option<UrlInfo>) -> Option<UrlInfoView> {
    match i {
        Some(v) => Some(v@),
        None => None,
    }
}

/// A seed: found in itself, no hops.
pub open spec fn seed_of(url: UrlView) -> UrlInfoView {
    UrlInfoView { url, discovered_in: url, hops: 0 }
}

/// Where a crawl gets by following `reference` from `from`: the joined URL,
/// found in the page it came from, one hop further where the host changes.
/// Nothing where the two give no URL.
pub open spec fn hop_of(from: UrlInfoView, reference: Seq<char>) -> Option<UrlInfoView> {
    match url_join(from.url.text, reference) {
        None => None,
        Some(next) => Some(
            UrlInfoView {
                url: next,
                discovered_in: from.url,
                hops: if same_host(next, from.url) {
                    from.hops
                } else {
                    from.hops + 1
                },
            },
        ),
    }
}

/// How a [`UrlInfo`] is shown: the URL, where it was found, and its hops.
pub open spec fn url_info_text(i: UrlInfoView) -> Seq<char> {
    i.url.text + " (discovered in "@ + i.discovered_in.text + ", hops:"@ + decimal(i.hops) + ")"@
}

impl Clone for UrlInfo {
    fn clone(&self) -> (r: Self)
        ensures
            r@ == self@,
    {
        UrlInfo { url: self.url.clone(), discovered_in: self.discovered_in.clone(), hops: self.hops }
    }
}

impl UrlInfo {
    /// The seed for a URL given as text. Nothing where the text is no
    /// absolute URL.
    pub fn start(url: &str) -> (r: Option<UrlInfo>)
        ensures
            opt_info_view(r) == match url_parse(url@) {
                Some(u) => Some(seed_of(u)),
                None => None,
            },
    {
        match Url::parse(url) {
            Some(parsed) => {
                let found_in = parsed.clone();
                Some(UrlInfo { url: parsed, discovered_in: found_in, hops: 0 })
            },
            None => None,
        }
    }

    /// Follows a link found at this URL. The link is read against the
    /// current URL; where that gives no URL the hop is dropped. The hop
    /// count grows by one exactly when the host changes.
    pub fn hop(self, new_url: &str) -> (r: Option<UrlInfo>)
        requires
            self.hops < usize::MAX,
        ensures
            opt_info_view(r) == hop_of(self@, new_url@),
    {
        match self.url.join(new_url) {
            None => None,
            Some(next) => {
                let hops = if next.has_same_host(&self.url) {
                    self.hops
                } else {
                    self.hops + 1
                };
                Some(UrlInfo { url: next, discovered_in: self.url, hops })
            },
        }
    }

    /// The URL, where it was found and its hops, in one line.
    pub fn to_text(&self) -> (r: String)
        ensures
            r@ == url_info_text(self@),
    {
        let mut out = self.url.text.clone();
        out.append(" (discovered in ");
        out.append(self.discovered_in.text.as_str());
        out.append(", hops:");
        out.append(format_decimal(self.hops as u64).as_str());
        out.append(")");
        out
    }
}

/// The version of HTTP a response came over.
#[derive(Clone, Copy, Debug, PartialEq, Eq, Structural)]
pub enum HttpVersion {
    Http09,
    Http10,
    Http11,
    H2,
    H3,
}

/// How a version is written: `HTTP/1.1` and the like.
pub open spec fn version_text(v: HttpVersion) -> Seq<char> {
    match v {
        HttpVersion::Http09 => "HTTP/0.9"@,
        HttpVersion::Http10 => "HTTP/1.0"@,
        HttpVersion::Http11 => "HTTP/1.1"@,
        HttpVersion::H2 => "HTTP/2.0"@,
        HttpVersion::H3 => "HTTP/3.0"@,
    }
}

impl HttpVersion {
    /// The version as it is written in a status line.
    pub fn as_str(&self) -> (r: &'static str)
        ensures
            r@ == version_text(*self),
    {
        match self {
            HttpVersion::Http09 => "HTTP/0.9",
            HttpVersion::Http10 => "HTTP/1.0",
            HttpVersion::Http11 => "HTTP/1.1",
            HttpVersion::H2 => "HTTP/2.0",
            HttpVersion::H3 => "HTTP/3.0",
        }
    }

    /// All versions, oldest first.
    pub fn all() -> (r: [HttpVersion; 5])
        ensures
            r@ == seq![
                HttpVersion::Http09,
                HttpVersion::Http10,
                HttpVersion::Http11,
                HttpVersion::H2,
                HttpVersion::H3,
            ],
    {
        [
            HttpVersion::Http09,
            HttpVersion::Http10,
            HttpVersion::Http11,
            HttpVersion::H2,
            HttpVersion::H3,
        ]
    }
}

/// One response header: the name in lower case, and the value's bytes.
#[derive(Debug)]
pub struct Header {
    pub name: String,
    pub value: Vec<u8>,
}

/// The mathematical value of a [`Header`].
pub ghost struct HeaderView {
    pub name: Seq<char>,
    pub value: Seq<u8>,
}

impl View for Header {
    type V = HeaderView;

    open spec fn view(&self) -> HeaderView {
        HeaderView { name: self.name@, value: self.value@ }
    }
}

impl Clone for Header {
    fn clone(&self) -> (r: Self)
        ensures
            r@ == self@,
    {
        Header { name: self.name.clone(), value: self.value.clone() }
    }
}

/// The values of a list of headers.
pub open spec fn headers_view(h: Seq<Header>) -> Seq<HeaderView> {
    Seq::new(h.len(), |i: int| h[i]@)
}

/// What a response said about itself. It is made once, by the fetcher, and
/// only read afterwards.
#[derive(Debug)]
pub struct ResponseMetadata {
    /// The URL that was fetched, and how the crawl got to it.
    pub url: UrlInfo,
    /// The status code.
    pub status: u16,
    /// The version of HTTP.
    pub version: HttpVersion,
    /// The response headers, in the order they came.
    pub headers: Vec<Header>,
    /// The address of the server as text, where it is known.
    pub remote_addr: Option<String>,
    /// When the request was sent.
    pub fetched_at: Timestamp,
    /// The id of this fetch: sixteen random bytes, read as a UUID.
    pub id: [u8; 16],
}

/// The mathematical value of a [`ResponseMetadata`].
pub ghost struct ResponseMetadataView {
    pub url: UrlInfoView,
    pub status: u16,
    pub version: HttpVersion,
    pub headers: Seq<HeaderView>,
    pub remote_addr: Option<Seq<char>>,
    pub fetched_at: int,
    pub id: Seq<u8>,
}

impl View for ResponseMetadata {
    type V = ResponseMetadataView;

    open spec fn view(&self) -> ResponseMetadataView {
        ResponseMetadataView {
            url: self.url@,
            status: self.status,
            version: self.version,
            headers: headers_view(self.headers@),
            remote_addr: opt_text(self.remote_addr),
            fetched_at: self.fetched_at@,
            id: self.id@,
        }
    }
}

/// Why a response body could not be read to its end.
#[derive(Clone, Debug, PartialEq, Eq)]
pub enum BodyReadError {
    /// The HTTP client failed; the text says how.
    Client(String),
    /// Reading failed; the text says how.
    IO(String),
    /// The response headers did not come in time.
    TimedOut,
    /// The body is longer than the configured limit.
    BodyTooLarge,
}

/// What can go wrong in a crawl or an export.
#[derive(Clone, Debug, PartialEq, Eq)]
pub enum EvergardenError {
    /// Reading or writing failed.
    IO(String),
    /// A response body could not be read to its end.
    BodyRead(BodyReadError),
    /// JSON could not be written or read.
    JSON(String),
    /// The archive refused an operation.
    Cache(String),
    /// A body could not be compressed or decompressed.
    Compression(String),
}

/// The message of a [`BodyReadError`].
pub open spec fn body_error_text(e: BodyReadError) -> Seq<char> {
    match e {
        BodyReadError::Client(m) => m@,
        BodyReadError::IO(m) => m@,
        BodyReadError::TimedOut => "response timed out"@,
        BodyReadError::BodyTooLarge => "response body excedeed limit"@,
    }
}

/// The message of an [`EvergardenError`].
pub open spec fn error_text(e: EvergardenError) -> Seq<char> {
    match e {
        EvergardenError::IO(m) => m@,
        EvergardenError::BodyRead(b) => body_error_text(b),
        EvergardenError::JSON(m) => m@,
        EvergardenError::Cache(m) => m@,
        EvergardenError::Compression(m) => m@,
    }
}

impl BodyReadError {
    /// The message of the error.
    pub fn message(&self) -> (r: String)
        ensures
            r@ == body_error_text(*self),
    {
        match self {
            BodyReadError::Client(m) => m.clone(),
            BodyReadError::IO(m) => m.clone(),
            BodyReadError::TimedOut => String::from_str("response timed out"),
            BodyReadError::BodyTooLarge => String::from_str("response body excedeed limit"),
        }
    }
}

impl EvergardenError {
    /// The message of the error; a body error shows the message of its cause.
    pub fn message(&self) -> (r: String)
        ensures
            r@ == error_text(*self),
    {
        match self {
            EvergardenError::IO(m) => m.clone(),
            EvergardenError::BodyRead(b) => b.message(),
            EvergardenError::JSON(m) => m.clone(),
            EvergardenError::Cache(m) => m.clone(),
            EvergardenError::Compression(m) => m.clone(),
        }
    }

    /// A body error as an error of the crawl.
    pub fn from_body(e: BodyReadError) -> (r: EvergardenError)
        ensures
            r == EvergardenError::BodyRead(e),
    {
        EvergardenError::BodyRead(e)
    }
}

/// A result of the crawl or the export.
pub type EvergardenResult<T> = Result<T, EvergardenError>;

/// A chunk of a body, or why the body ended early.
pub type BodyResult<T> = Result<T, BodyReadError>;

/// What a crawl leaves behind for the export: its configuration and the
/// keys of its seeds.
#[derive(Debug)]
pub struct CrawlInfo {
    /// The configuration, as JSON.
    pub config: String,
    /// The SURT keys of the seed URLs.
    pub entry_points: Vec<String>,
}

} // verus!

//! The crawl configuration and the numbers the rate limiter is set up with.

use std::time::Duration;
use vstd::prelude::*;
use vstd::string::*;
use crate::media::{
    content_type, declared_type, media_essence, media_essence_outside, media_range_accepts,
    range_matches,
};
use crate::model::{headers_view, Header, HeaderView, ResponseMetadata, ResponseMetadataView};
use crate::text::opt_text;

verus! {

/// The length of a `Duration` in nanoseconds.
pub uninterp spec fn duration_nanos(d: Duration) -> nat;

/// `Duration::from_secs` makes a duration of that many whole seconds.
pub assume_specification[ Duration::from_secs ](secs: u64) -> (d: Duration)
    ensures
        duration_nanos(d) == secs as nat * 1_000_000_000,
;

/// `Duration::from_millis` makes a duration of that many milliseconds.
pub assume_specification[ Duration::from_millis ](millis: u64) -> (d: Duration)
    ensures
        duration_nanos(d) == millis as nat * 1_000_000,
;

/// `Duration::as_nanos` gives the whole length in nanoseconds.
pub assume_specification[ Duration::as_nanos ](d: &Duration) -> (n: u128)
    ensures
        n as nat == duration_nanos(*d),
;

/// A copy of a `Duration` is the same duration.
pub assume_specification[ <Duration as Clone>::clone ](d: &Duration) -> (r: Duration)
    ensures
        r == *d,
;

/// Settings that hold for the whole crawl.
#[derive(Clone, Copy, Debug)]
pub struct GlobalConfig {
    /// How many times a crawl may cross from one host to another on the way
    /// to a URL.
    pub max_hops: usize,
}

/// One extra header sent with every request.
#[derive(Clone, Debug)]
pub struct HeaderPair {
    pub name: String,
    pub value: String,
}

/// Settings of the HTTP fetcher.
#[derive(Clone, Debug)]
pub struct HttpConfig {
    /// How long the response headers may take.
    pub timeout: Duration,
    /// The largest body that is accepted, if there is a limit.
    pub max_body_length: Option<usize>,
    /// Extra headers sent with every request.
    pub headers: Vec<HeaderPair>,
}

/// The period over which the rate limiter hands out its tokens.
#[derive(Clone, Copy, Debug, PartialEq, Eq, Structural)]
pub enum RateLimitingDuration {
    Second,
    Minute,
    Hour,
}

impl RateLimitingDuration {
    /// The length of the period in seconds.
    pub open spec fn seconds(self) -> nat {
        match self {
            RateLimitingDuration::Second => 1,
            RateLimitingDuration::Minute => 60,
            RateLimitingDuration::Hour => 3600,
        }
    }

    /// The length of the period in nanoseconds.
    pub open spec fn nanos(self) -> nat {
        self.seconds() * 1_000_000_000
    }

    /// The period as a `Duration`: one second, sixty, or sixty times sixty.
    pub fn as_duration(&self) -> (d: Duration)
        ensures
            duration_nanos(d) == self.nanos(),
    {
        match self {
            RateLimitingDuration::Second => Duration::from_secs(1),
            RateLimitingDuration::Minute => Duration::from_secs(60),
            RateLimitingDuration::Hour => Duration::from_secs(60 * 60),
        }
    }
}

/// Settings of the rate limiter: a pool of permits and a token bucket.
#[derive(Debug)]
pub struct RateLimitingConfig {
    /// How many requests may be under way at once. Never zero.
    pub max_tasks_per_worker: usize,
    /// How many tokens the bucket holds and gets back per period. Never zero.
    pub n: u32,
    /// The period over which `n` tokens come back.
    pub per: RateLimitingDuration,
    /// The longest random delay added before a token is granted.
    pub jitter: Duration,
}

impl RateLimitingConfig {
    /// Neither the pool nor the bucket is empty.
    pub open spec fn wf(&self) -> bool {
        self.max_tasks_per_worker > 0 && self.n > 0
    }

    /// The time after which one token comes back: the period divided by the
    /// number of tokens, in whole nanoseconds.
    pub open spec fn replenish_nanos(&self) -> nat {
        self.per.nanos() / (self.n as nat)
    }

    /// The time after which one token comes back, in whole nanoseconds. The
    /// bucket allows bursts of up to `n` requests. Zero where more tokens
    /// than nanoseconds are asked for: no bucket can be made of that.
    pub fn replenish_interval_nanos(&self) -> (r: u64)
        requires
            self.wf(),
        ensures
            r as nat == self.replenish_nanos(),
    {
        let period: u128 = self.per.as_duration().as_nanos();
        let n: u128 = self.n as u128;
        let interval: u128 = period / n;
        assert(interval <= period) by (nonlinear_arith)
            requires
                interval == period / n,
                n > 0,
        ;
        interval as u64
    }
}

impl Default for RateLimitingConfig {
    /// Sixteen permits and two hundred tokens per second, with up to fifty
    /// milliseconds of jitter.
    fn default() -> (r: Self)
        ensures
            r.wf(),
            r.max_tasks_per_worker == 16,
            r.n == 200,
            r.per == RateLimitingDuration::Second,
            duration_nanos(r.jitter) == 50_000_000,
    {
        RateLimitingConfig {
            max_tasks_per_worker: 16,
            n: 200,
            per: RateLimitingDuration::Second,
            jitter: Duration::from_millis(50),
        }
    }
}

/// What `regex` says of a text and a pattern: whether the pattern matches
/// somewhere in the text, or nothing where the pattern cannot be compiled.
pub uninterp spec fn regex_match(pattern: Seq<char>, text: Seq<char>) -> Option<bool>;

/// Calls `regex::Regex::new` and `is_match`. The result is named
/// [`regex_match`].
#[verifier::external_body]
fn regex_match_outside(pattern: &str, text: &str) -> (r: Option<bool>)
    ensures
        r == regex_match(pattern@, text@),
{
    Some(regex::Regex::new(pattern).ok()?.is_match(text))
}

/// Which responses a scraper is shown.
#[derive(Clone, Debug)]
pub struct ScriptFilter {
    /// A regular expression that the URL has to match, if any.
    pub url_pattern: Option<String>,
    /// The media ranges of which the response has to match one.
    pub mime_types: Vec<String>,
}

/// The mathematical value of a [`ScriptFilter`].
pub ghost struct ScriptFilterView {
    pub url_pattern: Option<Seq<char>>,
    pub mime_types: Seq<Seq<char>>,
}

impl View for ScriptFilter {
    type V = ScriptFilterView;

    open spec fn view(&self) -> ScriptFilterView {
        ScriptFilterView {
            url_pattern: opt_text(self.url_pattern),
            mime_types: Seq::new(self.mime_types@.len(), |i: int| self.mime_types@[i]@),
        }
    }
}

/// A filter lets a URL through where it has no pattern, or its pattern
/// matches the URL.
pub open spec fn url_passes(f: ScriptFilterView, url: Seq<char>) -> bool {
    match f.url_pattern {
        None => true,
        Some(pattern) => regex_match(pattern, url) == Some(true),
    }
}

/// One of the ranges matches the media type.
pub open spec fn some_range_matches(ranges: Seq<Seq<char>>, media_type: Seq<char>) -> bool {
    exists|i: int| 0 <= i < ranges.len() && #[trigger] range_matches(ranges[i], media_type)
}

/// A filter lets a response through by its type where the response
/// declares none that can be read, or one of the filter's ranges matches
/// the declared type.
pub open spec fn type_passes(f: ScriptFilterView, headers: Seq<HeaderView>) -> bool {
    match declared_type(headers) {
        None => true,
        Some(declared) => media_essence(declared) is None || some_range_matches(
            f.mime_types,
            declared,
        ),
    }
}

/// A filter lets a response through where it lets through both its URL
/// and its type.
pub open spec fn passes(f: ScriptFilterView, meta: ResponseMetadataView) -> bool {
    url_passes(f, meta.url.url.text) && type_passes(f, meta.headers)
}

impl ScriptFilter {
    /// Whether a response is shown to the scraper.
    pub fn matches(&self, data: &ResponseMetadata) -> (r: bool)
        ensures
            r == passes(self@, data@),
    {
        self.matches_url(data.url.url.as_str()) && self.matches_types(&data.headers)
    }

    /// Whether the URL of a response lets it through.
    pub fn matches_url(&self, url: &str) -> (r: bool)
        ensures
            r == url_passes(self@, url@),
    {
        match &self.url_pattern {
            None => true,
            Some(pattern) => match regex_match_outside(pattern.as_str(), url) {
                Some(found) => found,
                None => false,
            },
        }
    }

    /// Whether the declared type of a response lets it through.
    pub fn matches_types(&self, headers: &Vec<Header>) -> (r: bool)
        ensures
            r == type_passes(self@, headers_view(headers@)),
    {
        let declared = match content_type(headers) {
            None => {
                return true;
            },
            Some(text) => text,
        };
        if media_essence_outside(declared.as_str()).is_none() {
            return true;
        }
        let mut i: usize = 0;
        while i < self.mime_types.len()
            invariant
                i <= self.mime_types@.len(),
                declared_type(headers_view(headers@)) == Some(declared@),
                forall|k: int|
                    0 <= k < i ==> !#[trigger] range_matches(self@.mime_types[k], declared@),
            decreases self.mime_types@.len() - i,
        {
            if media_range_accepts(self.mime_types[i].as_str(), declared.as_str()) {
                assert(range_matches(self@.mime_types[i as int], declared@));
                return true;
            }
            i += 1;
        }
        false
    }
}

/// One scraper: which responses it is shown, how it is started, and how
/// many of it run side by side.
#[derive(Clone, Debug)]
pub struct ScriptConfig {
    pub filter: ScriptFilter,
    pub command: String,
    pub args: Vec<String>,
    pub workers: usize,
}

/// The whole configuration of a crawl.
#[derive(Debug)]
pub struct FullConfig {
    pub general: GlobalConfig,
    pub ratelimiter: RateLimitingConfig,
    pub http: HttpConfig,
    /// The scrapers by name, in the order of their names.
    pub scripts: Vec<(String, ScriptConfig)>,
}

} // verus!

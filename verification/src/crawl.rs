//! The decisions of a crawl as a whole: what it starts from, when it is
//! over, and in which order its parts are shut down.

use vstd::prelude::*;
use vstd::string::*;
use crate::actors::InFlight;
use crate::export::{sorted_keys, strictly_ordered, texts};
use crate::model::{seed_of, CrawlInfo, UrlInfo, UrlInfoView};
use crate::surt::{surt, surt_text};
use crate::url::{url_parse, Url, UrlView};

verus! {

/// How long the crawl waits between two looks at the count of requests
/// under way, in milliseconds.
pub const QUIESCENCE_TICK_MILLIS: u64 = 200;

/// How many URLs may wait in the mailbox of the fetcher.
pub const HTTP_MAILBOX_CAPACITY: usize = 10_000;

/// How many responses may wait in the mailbox of the scraper manager.
pub const SCRIPT_MANAGER_MAILBOX_CAPACITY: usize = 256;

/// How many requests may wait in the mailbox of the storage.
pub const STORAGE_MAILBOX_CAPACITY: usize = 256;

/// The URLs among the given texts, in their order; a text that is no
/// absolute URL is left out.
pub open spec fn seeds_of(texts: Seq<Seq<char>>) -> Seq<UrlView>
    decreases texts.len(),
{
    if texts.len() == 0 {
        Seq::empty()
    } else {
        match url_parse(texts.last()) {
            Some(u) => seeds_of(texts.drop_last()).push(u),
            None => seeds_of(texts.drop_last()),
        }
    }
}

/// The values of a list of URLs.
pub open spec fn urls_view(urls: Seq<Url>) -> Seq<UrlView> {
    Seq::new(urls.len(), |i: int| urls[i]@)
}

/// The values of a list of URLs with their provenance.
pub open spec fn infos_view(infos: Seq<UrlInfo>) -> Seq<UrlInfoView> {
    Seq::new(infos.len(), |i: int| infos[i]@)
}

/// Reads the seeds of a crawl from the texts given for them. A text that
/// is no absolute URL is left out.
pub fn parse_seeds(seed_urls: &Vec<String>) -> (r: Vec<Url>)
    ensures
        urls_view(r@) == seeds_of(texts(seed_urls@)),
{
    let mut out: Vec<Url> = Vec::new();
    let ghost given = texts(seed_urls@);
    let mut i: usize = 0;
    while i < seed_urls.len()
        invariant
            i <= seed_urls@.len(),
            given == texts(seed_urls@),
            urls_view(out@) == seeds_of(given.take(i as int)),
        decreases seed_urls@.len() - i,
    {
        proof {
            assert(given.take(i as int + 1).drop_last() =~= given.take(i as int));
        }
        match Url::parse(seed_urls[i].as_str()) {
            Some(url) => {
                out.push(url);
            },
            None => {},
        }
        i += 1;
    }
    proof {
        assert(given.take(i as int) =~= given);
    }
    out
}

/// The keys of the seeds: the keys under which their responses are
/// stored, and which are deleted from the archive before the crawl, so
/// that seeds are always fetched anew.
pub fn entry_points(seeds: &Vec<Url>) -> (r: Vec<String>)
    ensures
        texts(r@) == seed_keys(urls_view(seeds@)),
{
    let mut out: Vec<String> = Vec::new();
    let mut i: usize = 0;
    while i < seeds.len()
        invariant
            i <= seeds@.len(),
            out@.len() == i,
            forall|k: int| 0 <= k < i ==> (#[trigger] out@[k])@ == surt_text(seeds@[k]@),
        decreases seeds@.len() - i,
    {
        out.push(surt(seeds[i].clone()));
        i += 1;
    }
    out
}

/// What the crawl starts from: every seed, found in itself, no hops.
pub fn seed_infos(seeds: &Vec<Url>) -> (r: Vec<UrlInfo>)
    ensures
        infos_view(r@) == Seq::new(seeds@.len(), |i: int| seed_of(seeds@[i]@)),
{
    let mut out: Vec<UrlInfo> = Vec::new();
    let mut i: usize = 0;
    while i < seeds.len()
        invariant
            i <= seeds@.len(),
            out@.len() == i,
            forall|k: int| 0 <= k < i ==> (#[trigger] out@[k])@ == seed_of(seeds@[k]@),
        decreases seeds@.len() - i,
    {
        out.push(UrlInfo { url: seeds[i].clone(), discovered_in: seeds[i].clone(), hops: 0 });
        i += 1;
    }
    out
}

/// The keys of a list of seeds, in the order of the seeds.
pub open spec fn seed_keys(seeds: Seq<UrlView>) -> Seq<Seq<char>> {
    Seq::new(seeds.len(), |i: int| surt_text(seeds[i]))
}

impl CrawlInfo {
    /// What a crawl with this configuration and these seeds leaves behind
    /// for the export: the configuration, and the keys of the seeds, each
    /// once and in order.
    pub fn new(config: String, seeds: &Vec<Url>) -> (r: CrawlInfo)
        ensures
            r.config@ == config@,
            strictly_ordered(texts(r.entry_points@)),
            texts(r.entry_points@).to_set() == seed_keys(urls_view(seeds@)).to_set(),
    {
        let keys = entry_points(seeds);
        proof {
            assert(texts(keys@) =~= seed_keys(urls_view(seeds@)));
        }
        CrawlInfo { config, entry_points: sorted_keys(keys) }
    }
}

/// What a crawl starts with.
#[derive(Debug)]
pub struct CrawlStart {
    /// What is written to the archive for the export.
    pub info: CrawlInfo,
    /// The keys that are deleted from the archive before the first fetch:
    /// those of the seeds, so that seeds are always fetched anew.
    pub delete: Vec<String>,
    /// What is handed to the fetcher: every seed, found in itself, no hops.
    pub seeds: Vec<UrlInfo>,
}

/// Plans the start of a crawl from its configuration, as JSON, and the
/// texts given for its seeds. A text that is no absolute URL is left out.
pub fn plan_start(config: String, seed_urls: &Vec<String>) -> (r: CrawlStart)
    ensures
        r.info.config@ == config@,
        strictly_ordered(texts(r.info.entry_points@)),
        texts(r.info.entry_points@).to_set() == seed_keys(seeds_of(texts(seed_urls@))).to_set(),
        texts(r.delete@) == seed_keys(seeds_of(texts(seed_urls@))),
        infos_view(r.seeds@) == Seq::new(
            seeds_of(texts(seed_urls@)).len(),
            |i: int| seed_of(seeds_of(texts(seed_urls@))[i]),
        ),
{
    let seeds = parse_seeds(seed_urls);
    proof {
        assert(forall|i: int| 0 <= i < seeds@.len() ==> seeds@[i]@ == urls_view(seeds@)[i]);
    }
    let info = CrawlInfo::new(config, &seeds);
    let delete = entry_points(&seeds);
    let infos = seed_infos(&seeds);
    CrawlStart { info, delete, seeds: infos }
}

/// A crawl is over once every seed has been handed to the fetcher and
/// answered, and no request is under way.
pub fn may_shut_down(submitter_done: bool, in_flight: &InFlight) -> (r: bool)
    ensures
        r == (submitter_done && in_flight@ == 0),
{
    submitter_done && in_flight.is_idle()
}

/// The parts of a crawl that are shut down one after the other.
#[derive(Clone, Copy, Debug, PartialEq, Eq, Structural)]
pub enum Component {
    /// The scrapers: shut down first, so that their requests are done.
    Scrapers,
    /// The fetcher: shut down next, so that what the scrapers asked for
    /// has been stored.
    Http,
    /// The storage: shut down last.
    Storage,
}

/// The part that is shut down after `closed` parts have been, or nothing
/// where all have been.
pub fn next_to_close(closed: usize) -> (r: Option<Component>)
    ensures
        r == if closed == 0 {
            Some(Component::Scrapers)
        } else if closed == 1 {
            Some(Component::Http)
        } else if closed == 2 {
            Some(Component::Storage)
        } else {
            None
        },
{
    if closed == 0 {
        Some(Component::Scrapers)
    } else if closed == 1 {
        Some(Component::Http)
    } else if closed == 2 {
        Some(Component::Storage)
    } else {
        None
    }
}

} // verus!

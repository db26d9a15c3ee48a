use std::time::Duration;

use evergarden::actors::{next_action, InFlight, LoopAction, LoopEvent};
use evergarden::config::{
    RateLimitingConfig, RateLimitingDuration, ScriptFilter,
};
use evergarden::crawl::{
    entry_points, may_shut_down, next_to_close, parse_seeds, plan_start, seed_infos, Component,
};
use evergarden::fetch::{
    fetch_result, header_error, plan_fetch, BodyEvent, BodyPump, BodyStep, FetchPlan, HeaderPhase,
    StorageReply,
};
use evergarden::media::{
    content_essence, content_type, find_header, header_text, media_range_accepts,
};
use evergarden::model::{
    BodyReadError, CrawlInfo, EvergardenError, Header, HttpVersion, ResponseMetadata, Timestamp,
    UrlInfo,
};
use evergarden::script::matching_scripts;

fn header(name: &str, value: &[u8]) -> Header {
    Header { name: name.to_string(), value: value.to_vec() }
}

fn response(url: &str, headers: Vec<Header>) -> ResponseMetadata {
    ResponseMetadata {
        url: UrlInfo::start(url).unwrap(),
        status: 200,
        version: HttpVersion::Http11,
        headers,
        remote_addr: None,
        fetched_at: Timestamp::from_unix_nanos(0).unwrap(),
        id: [0; 16],
    }
}

#[test]
fn as_duration_gives_the_periods() {
    assert_eq!(RateLimitingDuration::Second.as_duration(), Duration::from_secs(1));
    assert_eq!(RateLimitingDuration::Minute.as_duration(), Duration::from_secs(60));
    assert_eq!(RateLimitingDuration::Hour.as_duration(), Duration::from_secs(3600));
}

#[test]
fn default_rate_limit() {
    let config = RateLimitingConfig::default();
    assert_eq!(config.max_tasks_per_worker, 16);
    assert_eq!(config.n, 200);
    assert_eq!(config.per, RateLimitingDuration::Second);
    assert_eq!(config.jitter, Duration::from_millis(50));
    assert_eq!(config.replenish_interval_nanos(), 5_000_000);
}

#[test]
fn replenish_interval_is_the_period_over_the_tokens() {
    let config = |n: u32, per: RateLimitingDuration| RateLimitingConfig {
        max_tasks_per_worker: 1,
        n,
        per,
        jitter: Duration::from_millis(0),
    };
    assert_eq!(config(1, RateLimitingDuration::Second).replenish_interval_nanos(), 1_000_000_000);
    assert_eq!(config(3, RateLimitingDuration::Second).replenish_interval_nanos(), 333_333_333);
    assert_eq!(config(7, RateLimitingDuration::Minute).replenish_interval_nanos(), 8_571_428_571);
    assert_eq!(config(1, RateLimitingDuration::Hour).replenish_interval_nanos(), 3_600_000_000_000);
    assert_eq!(config(u32::MAX, RateLimitingDuration::Second).replenish_interval_nanos(), 0);
    assert_eq!(config(u32::MAX, RateLimitingDuration::Hour).replenish_interval_nanos(), 838);
}

#[test]
fn cached_urls_are_not_fetched() {
    assert_eq!(plan_fetch(StorageReply::Found), FetchPlan::ReplyCached);
    assert_eq!(plan_fetch(StorageReply::Missing), FetchPlan::Fetch);
    assert_eq!(plan_fetch(StorageReply::Other), FetchPlan::Fetch);
}

#[test]
fn header_phase_errors() {
    assert_eq!(header_error(HeaderPhase::Arrived), None);
    assert_eq!(header_error(HeaderPhase::TimedOut), Some(BodyReadError::TimedOut));
    assert_eq!(
        header_error(HeaderPhase::Failed("dns".to_string())),
        Some(BodyReadError::Client("dns".to_string()))
    );
}

#[test]
fn body_longer_than_the_limit_is_cut_off() {
    let mut pump = BodyPump::new(Some(10));
    assert_eq!(pump.step(BodyEvent::Chunk(4)), BodyStep::Forward);
    assert_eq!(pump.remaining(), Some(6));
    assert_eq!(pump.step(BodyEvent::Chunk(6)), BodyStep::Forward);
    assert_eq!(pump.remaining(), Some(0));
    assert_eq!(pump.step(BodyEvent::Chunk(0)), BodyStep::Forward);
    assert_eq!(pump.step(BodyEvent::Chunk(1)), BodyStep::Abort(BodyReadError::BodyTooLarge));
    assert_eq!(pump.remaining(), Some(0));

    let mut pump = BodyPump::new(Some(10));
    assert_eq!(pump.step(BodyEvent::Chunk(11)), BodyStep::Abort(BodyReadError::BodyTooLarge));

    let mut pump = BodyPump::new(Some(10));
    assert_eq!(pump.step(BodyEvent::Chunk(10)), BodyStep::Forward);
    assert_eq!(pump.step(BodyEvent::End), BodyStep::Finish);
}

#[test]
fn body_without_a_limit_goes_through() {
    let mut pump = BodyPump::new(None);
    assert_eq!(pump.step(BodyEvent::Chunk(usize::MAX)), BodyStep::Forward);
    assert_eq!(pump.step(BodyEvent::Chunk(usize::MAX)), BodyStep::Forward);
    assert_eq!(pump.remaining(), None);
    assert_eq!(
        pump.step(BodyEvent::Failed("reset".to_string())),
        BodyStep::Abort(BodyReadError::Client("reset".to_string()))
    );
    assert_eq!(pump.step(BodyEvent::End), BodyStep::Finish);
    assert_eq!(
        pump.step(BodyEvent::ReadFailed("checksum".to_string())),
        BodyStep::Abort(BodyReadError::IO("checksum".to_string()))
    );
}

#[test]
fn a_fetch_fails_with_the_first_error() {
    let body = || Err(EvergardenError::BodyRead(BodyReadError::BodyTooLarge));
    let storage = || Err(EvergardenError::Cache("full".to_string()));
    let scraper = || Err(EvergardenError::IO("pipe".to_string()));
    assert_eq!(fetch_result(Ok(()), Ok(()), Ok(())), Ok(()));
    assert_eq!(fetch_result(body(), storage(), scraper()), body());
    assert_eq!(fetch_result(Ok(()), storage(), scraper()), storage());
    assert_eq!(fetch_result(Ok(()), Ok(()), scraper()), scraper());
    assert_eq!(fetch_result(body(), Ok(()), Ok(())), body());
}

#[test]
fn in_flight_count_returns_to_where_it_was() {
    let mut count = InFlight::new();
    assert!(count.is_idle());
    count.enqueued();
    count.enqueued();
    let before = count.count();
    count.enqueued();
    assert_eq!(count.count(), before + 1);
    count.enqueued();
    count.resolved();
    count.resolved();
    assert_eq!(count.count(), before);
    assert!(!count.is_idle());
    count.resolved();
    count.resolved();
    assert!(count.is_idle());
    assert_eq!(count.count(), 0);
}

#[test]
fn crawl_ends_when_nothing_is_under_way() {
    let mut count = InFlight::new();
    assert!(may_shut_down(true, &count));
    assert!(!may_shut_down(false, &count));
    count.enqueued();
    assert!(!may_shut_down(true, &count));
    assert!(!may_shut_down(false, &count));
    count.resolved();
    assert!(may_shut_down(true, &count));
}

#[test]
fn parts_are_shut_down_in_order() {
    assert_eq!(next_to_close(0), Some(Component::Scrapers));
    assert_eq!(next_to_close(1), Some(Component::Http));
    assert_eq!(next_to_close(2), Some(Component::Storage));
    assert_eq!(next_to_close(3), None);
    assert_eq!(next_to_close(usize::MAX), None);
}

#[test]
fn actor_loop_answers_messages_and_closes_on_anything_else() {
    match next_action(LoopEvent::Message(5)) {
        LoopAction::Answer(5) => {}
        other => panic!("{other:?}"),
    }
    match next_action(LoopEvent::<u8>::StateChanged) {
        LoopAction::Close => {}
        other => panic!("{other:?}"),
    }
    match next_action(LoopEvent::<u8>::Disconnected) {
        LoopAction::Close => {}
        other => panic!("{other:?}"),
    }
}

#[test]
fn seeds_that_are_no_urls_are_left_out() {
    let texts = vec![
        "https://www.example.com/a?B=1".to_string(),
        "nonsense".to_string(),
        "http://other.org".to_string(),
    ];
    let seeds = parse_seeds(&texts);
    let urls: Vec<&str> = seeds.iter().map(|u| u.as_str()).collect();
    assert_eq!(urls, vec!["https://www.example.com/a?B=1", "http://other.org/"]);
    assert_eq!(entry_points(&seeds), vec!["com,example)/a?b=1", "org,other)/"]);
    let infos = seed_infos(&seeds);
    assert_eq!(infos.len(), 2);
    assert_eq!(infos[1].url.as_str(), "http://other.org/");
    assert_eq!(infos[1].discovered_in.as_str(), "http://other.org/");
    assert_eq!(infos[1].hops, 0);
    let info = CrawlInfo::new("{}".to_string(), &seeds);
    assert_eq!(info.config, "{}");
    assert_eq!(info.entry_points, vec!["com,example)/a?b=1", "org,other)/"]);
}

#[test]
fn a_crawl_starts_from_its_seeds() {
    let texts = vec!["http://b.example/".to_string(), "?".to_string(), "http://www.a.example/".to_string()];
    let start = plan_start("{\"general\":{}}".to_string(), &texts);
    assert_eq!(start.info.config, "{\"general\":{}}");
    assert_eq!(start.info.entry_points, vec!["example,a)/", "example,b)/"]);
    assert_eq!(start.delete, vec!["example,b)/", "example,a)/"]);
    let urls: Vec<&str> = start.seeds.iter().map(|s| s.url.as_str()).collect();
    assert_eq!(urls, vec!["http://b.example/", "http://www.a.example/"]);
    assert!(start.seeds.iter().all(|s| s.hops == 0 && s.discovered_in.as_str() == s.url.as_str()));
}

#[test]
fn entry_points_are_a_sorted_set() {
    let texts = vec![
        "http://b.example/".to_string(),
        "https://www.a.example/".to_string(),
        "http://a.example/".to_string(),
        "http://B.example:80/".to_string(),
    ];
    let start = plan_start(String::new(), &texts);
    assert_eq!(start.info.entry_points, vec!["example,a)/", "example,b)/"]);
    assert_eq!(start.delete.len(), 4);
    assert_eq!(start.seeds.len(), 4);
}

#[test]
fn headers_are_found_and_read() {
    let headers = vec![
        header("server", b"x"),
        header("content-type", b"Text/HTML; charset=UTF-8"),
        header("content-type", b"image/png"),
    ];
    assert_eq!(find_header(&headers, "content-type").unwrap(), b"Text/HTML; charset=UTF-8");
    assert!(find_header(&headers, "Content-Type").is_none());
    assert!(find_header(&headers, "etag").is_none());
    assert_eq!(content_type(&headers), Some("Text/HTML; charset=UTF-8".to_string()));
    assert_eq!(content_essence(&headers), Some("text/html".to_string()));
    assert_eq!(header_text(b"a\tb ~"), Some("a\tb ~".to_string()));
    assert_eq!(header_text(b""), Some(String::new()));
    assert_eq!(header_text(b"a\x7f"), None);
    assert_eq!(header_text(b"a\nb"), None);
    assert_eq!(header_text(&[0xc3, 0xa9]), None);
    assert_eq!(content_essence(&vec![header("content-type", b"nonsense")]), None);
    assert_eq!(content_essence(&vec![header("content-type", &[0xff])]), None);
}

#[test]
fn filters_by_url() {
    let filter = |pattern: Option<&str>| ScriptFilter {
        url_pattern: pattern.map(str::to_string),
        mime_types: Vec::new(),
    };
    assert!(filter(None).matches_url("https://example.com/"));
    assert!(filter(Some(r"^https://example\.com/")).matches_url("https://example.com/a"));
    assert!(!filter(Some(r"^https://example\.com/")).matches_url("http://example.com/a"));
    assert!(filter(Some(r"\.png$")).matches_url("http://example.com/a.png"));
    assert!(!filter(Some(r"(unclosed")).matches_url("(unclosed"));
}

#[test]
fn filters_by_type() {
    let filter = |ranges: &[&str]| ScriptFilter {
        url_pattern: None,
        mime_types: ranges.iter().map(|r| r.to_string()).collect(),
    };
    let html = vec![header("content-type", b"text/html; charset=utf-8")];
    assert!(filter(&["text/*"]).matches_types(&html));
    assert!(filter(&["image/*", "text/html"]).matches_types(&html));
    assert!(filter(&["*/*"]).matches_types(&html));
    assert!(!filter(&["image/*"]).matches_types(&html));
    assert!(!filter(&[]).matches_types(&html));
    assert!(!filter(&["not a range"]).matches_types(&html));
    assert!(!filter(&["*/html"]).matches_types(&html));
    assert!(!filter(&["*/"]).matches_types(&html));
    assert!(filter(&["text/*; q=0.8"]).matches_types(&html));
    assert!(filter(&["*/", "text/*; charset=utf-8"]).matches_types(&html));
    assert!(!filter(&["text/*; charset=utf-8"]).matches_types(&vec![header("content-type", b"text/html")]));
    assert!(filter(&["image/*"]).matches_types(&Vec::new()));
    assert!(filter(&[]).matches_types(&vec![header("content-type", b"nonsense")]));
    assert!(filter(&["image/*"]).matches_types(&vec![header("content-type", &[0x80])]));
}

#[test]
fn media_ranges() {
    assert!(media_range_accepts("text/*", "text/plain"));
    assert!(media_range_accepts("TEXT/Plain", "text/plain; charset=utf-8"));
    assert!(!media_range_accepts("text/*", "image/png"));
    assert!(!media_range_accepts("text/*", "text"));
    assert!(!media_range_accepts("", "text/plain"));
    assert!(!media_range_accepts("*/plain", "text/plain"));
}

#[test]
fn scripts_are_picked_by_their_filters() {
    let filters = vec![
        ScriptFilter { url_pattern: None, mime_types: vec!["text/*".to_string()] },
        ScriptFilter { url_pattern: Some("/img/".to_string()), mime_types: vec!["*/*".to_string()] },
        ScriptFilter { url_pattern: Some("example".to_string()), mime_types: vec!["text/html".to_string()] },
    ];
    let page = response("https://example.com/page", vec![header("content-type", b"text/html")]);
    assert_eq!(matching_scripts(&filters, &page), vec![0, 2]);
    assert!(filters[0].matches(&page));
    assert!(!filters[1].matches(&page));
    let image = response("https://example.com/img/a.png", vec![header("content-type", b"image/png")]);
    assert_eq!(matching_scripts(&filters, &image), vec![1]);
    let untyped = response("https://other.org/img/a", Vec::new());
    assert_eq!(matching_scripts(&filters, &untyped), vec![0, 1]);
    assert_eq!(matching_scripts(&Vec::new(), &page), Vec::<usize>::new());
}

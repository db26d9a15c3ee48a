use evergarden::model::UrlInfo;
use evergarden::surt::{assemble, lowercase_pairs, sort_pairs_by_name, strip_www, surt};
use evergarden::url::{HostKind, Url};

fn key(url: &str) -> String {
    surt(Url::parse(url).unwrap())
}

#[test]
fn url_to_surt() {
    assert_eq!(key("https://www23.example.com/some/path").as_str(), "com,example)/some/path");
    assert_eq!(
        key("https://example.com/www2.example/some/value").as_str(),
        "com,example)/www2.example/some/value"
    );
    assert_eq!(key("https://abc.www.example.com/example").as_str(), "com,example,www,abc)/example");
    assert_eq!(key("https://www.example.com:443/some/path").as_str(), "com,example)/some/path");
    assert_eq!(key("http://www.example.com:80/some/path").as_str(), "com,example)/some/path");
    assert_eq!(key("https://www.example.com:123/some/path").as_str(), "com,example:123)/some/path");
    assert_eq!(
        key("https://www.example.com/some/path?D=1&CC=2&EE=3").as_str(),
        "com,example)/some/path?cc=2&d=1&ee=3"
    );
    assert_eq!(
        key("https://www.example.com/some/path?a=b&c&cc=1&d=e").as_str(),
        "com,example)/some/path?a=b&c=&cc=1&d=e"
    );
}

#[test]
fn surt_of_the_data_model_example() {
    assert_eq!(
        key("https://www.example.com/some/path?D=1&CC=2").as_str(),
        "com,example)/some/path?cc=2&d=1"
    );
}

#[test]
fn strip_www_takes_the_label_and_its_number() {
    assert_eq!(strip_www("www.example.com"), Some("example.com".to_string()));
    assert_eq!(strip_www("www23.example.com"), Some("example.com".to_string()));
    assert_eq!(strip_www("wwwx.example.com"), None);
    assert_eq!(strip_www("www2example.com"), None);
    assert_eq!(strip_www("abc.www.example.com"), None);
    assert_eq!(strip_www("ww"), None);
    assert_eq!(strip_www("www."), Some(String::new()));
}

#[test]
fn surt_keeps_www_when_nothing_would_be_left() {
    assert_eq!(key("https://www./x").as_str(), ",www)/x");
}

#[test]
fn surt_of_an_address_host_is_left_alone() {
    assert_eq!(key("http://127.0.0.1:8080/a").as_str(), "1,0,0,127:8080)/a");
}

#[test]
fn surt_without_host() {
    assert_eq!(key("mailto:someone@example.com").as_str(), ")someone@example.com");
}

#[test]
fn surt_lowers_names_and_values() {
    assert_eq!(key("https://example.com/?B=Y&a=X").as_str(), "com,example)/?a=x&b=y");
}

#[test]
fn surt_keeps_pairs_of_one_name_in_their_order() {
    assert_eq!(key("https://example.com/?b=2&a=z&b=1&a=y").as_str(), "com,example)/?a=z&a=y&b=2&b=1");
}

#[test]
fn assemble_escapes_the_query() {
    let pairs = vec![("a b".to_string(), "c&d".to_string()), ("é".to_string(), "*-._~".to_string())];
    assert_eq!(
        assemble("example.com", Some(8080), "/p", &pairs).as_str(),
        "com,example:8080)/p?a+b=c%26d&%C3%A9=*-._%7E"
    );
    assert_eq!(assemble("a..b", None, "", &Vec::new()).as_str(), "b,,a)");
    assert_eq!(assemble("", Some(0), "/", &Vec::new()).as_str(), ":0)/");
    assert_eq!(assemble("localhost", Some(65535), "/", &Vec::new()).as_str(), "localhost:65535)/");
}

#[test]
fn lowercase_pairs_lowers_both_sides() {
    let pairs = vec![("KEY".to_string(), "Value".to_string()), ("ÄB".to_string(), "ß".to_string())];
    assert_eq!(
        lowercase_pairs(&pairs),
        vec![("key".to_string(), "value".to_string()), ("äb".to_string(), "ß".to_string())]
    );
}

#[test]
fn sort_pairs_is_stable() {
    let pairs = vec![
        ("b".to_string(), "1".to_string()),
        ("a".to_string(), "2".to_string()),
        ("b".to_string(), "0".to_string()),
        ("a".to_string(), "1".to_string()),
    ];
    let sorted = sort_pairs_by_name(pairs);
    let flat: Vec<String> = sorted.iter().map(|(k, v)| format!("{k}{v}")).collect();
    assert_eq!(flat, vec!["a2", "a1", "b1", "b0"]);
}

#[test]
fn url_parts_are_read() {
    let url = Url::parse("https://user@Example.COM:8443/a/b?x=1&y=%20z#frag").unwrap();
    assert_eq!(url.as_str(), "https://user@example.com:8443/a/b?x=1&y=%20z#frag");
    assert_eq!(url.host_kind, HostKind::Domain);
    assert_eq!(url.host, Some("example.com".to_string()));
    assert_eq!(url.port, Some(8443));
    assert_eq!(url.path, "/a/b");
    assert_eq!(
        url.query_pairs,
        vec![("x".to_string(), "1".to_string()), ("y".to_string(), " z".to_string())]
    );
    assert!(Url::parse("not a url").is_none());
    assert_eq!(Url::parse("http://[::1]/").unwrap().host_kind, HostKind::Ipv6);
    assert_eq!(Url::parse("http://10.0.0.1/").unwrap().host_kind, HostKind::Ipv4);
    assert_eq!(Url::parse("data:text/plain,hi").unwrap().host_kind, HostKind::Missing);
}

#[test]
fn url_join_reads_a_link_against_its_page() {
    let base = Url::parse("https://example.net/a/b.html").unwrap();
    assert_eq!(base.join("c.png").unwrap().as_str(), "https://example.net/a/c.png");
    assert_eq!(base.join("//other.org/x").unwrap().as_str(), "https://other.org/x");
    assert_eq!(base.join("http://third.org/").unwrap().as_str(), "http://third.org/");
    assert!(base.join("http://[bad").is_none());
    assert!(base.has_same_host(&base.join("/z").unwrap()));
    assert!(!base.has_same_host(&base.join("//other.org/x").unwrap()));
}

#[test]
fn surt_of_a_hop_is_the_key_of_the_joined_url() {
    let start = UrlInfo::start("https://www.example.com/dir/page.html?A=1").unwrap();
    let joined = start.url.join("../other?B=2&a=1").unwrap();
    let hopped = start.hop("../other?B=2&a=1").unwrap();
    assert_eq!(surt(hopped.url.clone()), surt(joined));
    assert_eq!(surt(hopped.url).as_str(), "com,example)/other?a=1&b=2");
}

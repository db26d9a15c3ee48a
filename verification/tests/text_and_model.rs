use evergarden::model::{BodyReadError, EvergardenError, Timestamp, UrlInfo};
use evergarden::package::{file_digest, join_path, sha256_as_string};
use evergarden::text::{
    bytes_before_or_equal, chars_of, pad_decimal, push_chars, push_text, text_before_or_equal,
};

#[test]
fn byte_order_is_lexicographic() {
    assert!(bytes_before_or_equal(b"", b""));
    assert!(bytes_before_or_equal(b"", b"a"));
    assert!(!bytes_before_or_equal(b"a", b""));
    assert!(bytes_before_or_equal(b"abc", b"abd"));
    assert!(!bytes_before_or_equal(b"abd", b"abc"));
    assert!(bytes_before_or_equal(b"ab", b"abc"));
    assert!(!bytes_before_or_equal(b"abc", b"ab"));
    assert!(bytes_before_or_equal(b"abc", b"abc"));
    assert!(bytes_before_or_equal(&[0x7f], &[0x80]));
}

#[test]
fn text_order_is_the_order_of_strings() {
    let words = ["", "a", "B", "com,example)/", "com,example)/a", "é", "z", "com,example,www)/"];
    for a in words {
        for b in words {
            assert_eq!(text_before_or_equal(a, b), a <= b);
        }
    }
}

#[test]
fn chars_and_text_helpers() {
    assert_eq!(chars_of("héllo"), vec!['h', 'é', 'l', 'l', 'o']);
    let mut s = String::from("x");
    push_chars(&mut s, &vec!['a', 'b', 'c', 'd'], 1, 3);
    assert_eq!(s, "xbc");
    let mut out = vec![1u8];
    push_text(&mut out, "é!");
    assert_eq!(out, vec![1u8, 0xc3, 0xa9, b'!']);
}

#[test]
fn pad_decimal_pads_up_to_the_width() {
    assert_eq!(pad_decimal(0, 5), "00000");
    assert_eq!(pad_decimal(7, 3), "007");
    assert_eq!(pad_decimal(123, 3), "123");
    assert_eq!(pad_decimal(123456, 5), "123456");
    assert_eq!(pad_decimal(u64::MAX, 0), "18446744073709551615");
}

#[test]
fn digest_of_nothing() {
    let digest = file_digest(b"");
    assert_eq!(
        sha256_as_string(&digest).as_str(),
        "sha256:e3b0c44298fc1c149afbf4c8996fb92427ae41e4649b934ca495991b7852b855"
    );
}

#[test]
fn digest_of_abc() {
    let digest = file_digest(b"abc");
    assert_eq!(
        sha256_as_string(&digest).as_str(),
        "sha256:ba7816bf8f01cfea414140de5dae2223b00361a396177a9cb410ff61f20015ad"
    );
}

#[test]
fn sha256_as_string_writes_lower_case_hex() {
    let mut hash = [0u8; 32];
    hash[0] = 0xAB;
    hash[1] = 0x0F;
    hash[31] = 0xFF;
    let text = sha256_as_string(&hash);
    assert_eq!(text.len(), 71);
    assert_eq!(&text[..11], "sha256:ab0f");
    assert_eq!(&text[69..], "ff");
}

#[test]
fn join_path_adds_a_slash_where_needed() {
    assert_eq!(join_path("indexes/", "index.idx"), "indexes/index.idx");
    assert_eq!(join_path("indexes", "index.idx"), "indexes/index.idx");
    assert_eq!(join_path("", "index.idx"), "index.idx");
}

#[test]
fn timestamp_is_written_both_ways() {
    let epoch = Timestamp::from_unix_nanos(0).unwrap();
    assert_eq!(epoch.rfc3339(), "1970-01-01T00:00:00Z");
    assert_eq!(epoch.compact(), "19700101000000");
    assert_eq!(epoch.unix_nanos(), 0);
    let later = Timestamp::from_unix_nanos(1_692_102_896_123_000_000).unwrap();
    assert_eq!(later.rfc3339(), "2023-08-15T12:34:56.123Z");
    assert_eq!(later.compact(), "20230815123456");
    assert!(epoch.not_after(&later));
    assert!(!later.not_after(&epoch));
    assert!(later.not_after(&later.clone()));
}

#[test]
fn timestamp_out_of_range_is_refused() {
    assert!(Timestamp::from_unix_nanos(i128::MAX).is_none());
    assert!(Timestamp::from_unix_nanos(-70_000_000_000_000_000_000).is_none());
    assert!(Timestamp::from_unix_nanos(253_402_300_800_000_000_000).is_none());
    assert!(Timestamp::from_unix_nanos(253_402_300_799_000_000_000).is_some());
}

#[test]
fn url_info_start_and_hop() {
    let seed = UrlInfo::start("https://example.com/a").unwrap();
    assert_eq!(seed.url.as_str(), "https://example.com/a");
    assert_eq!(seed.discovered_in.as_str(), "https://example.com/a");
    assert_eq!(seed.hops, 0);
    assert!(UrlInfo::start("mailto").is_none());

    let same = seed.clone().hop("/b").unwrap();
    assert_eq!(same.url.as_str(), "https://example.com/b");
    assert_eq!(same.discovered_in.as_str(), "https://example.com/a");
    assert_eq!(same.hops, 0);

    let other = same.hop("https://other.org/").unwrap();
    assert_eq!(other.url.as_str(), "https://other.org/");
    assert_eq!(other.discovered_in.as_str(), "https://example.com/b");
    assert_eq!(other.hops, 1);

    let back = other.hop("https://example.com/").unwrap();
    assert_eq!(back.hops, 2);
    assert!(seed.hop("http://[").is_none());
}

#[test]
fn url_info_is_shown_with_its_provenance() {
    let seed = UrlInfo::start("https://example.com/a").unwrap();
    let next = seed.hop("https://other.org/x").unwrap();
    assert_eq!(
        next.to_text(),
        "https://other.org/x (discovered in https://example.com/a, hops:1)"
    );
}

#[test]
fn error_messages() {
    assert_eq!(BodyReadError::TimedOut.message(), "response timed out");
    assert_eq!(BodyReadError::BodyTooLarge.message(), "response body excedeed limit");
    assert_eq!(BodyReadError::Client("refused".to_string()).message(), "refused");
    assert_eq!(BodyReadError::IO("broken pipe".to_string()).message(), "broken pipe");
    assert_eq!(EvergardenError::IO("disk".to_string()).message(), "disk");
    assert_eq!(EvergardenError::JSON("eof".to_string()).message(), "eof");
    assert_eq!(EvergardenError::Cache("gone".to_string()).message(), "gone");
    assert_eq!(EvergardenError::Compression("bad frame".to_string()).message(), "bad frame");
    assert_eq!(
        EvergardenError::BodyRead(BodyReadError::BodyTooLarge).message(),
        "response body excedeed limit"
    );
    assert_eq!(
        EvergardenError::from_body(BodyReadError::TimedOut),
        EvergardenError::BodyRead(BodyReadError::TimedOut)
    );
}

use std::io::Read;

use evergarden::cdxj::{CDXJBlock, CDXStyleRecord, CDXWriter, ZipNumBlock};
use evergarden::export::{sort_records, sorted_keys, ArchiveEntry, EntryPoints};
use evergarden::exporter::{export, Exporter};
use evergarden::wacz::{Storing, Wacz, WaczMember};
use evergarden::model::{Header, HttpVersion, ResponseMetadata, Timestamp, UrlInfo};
use evergarden::package::{file_digest, sha256_as_string, DataPackage, DataPackageEntry};
use evergarden::surt::surt;
use evergarden::warc::{file_name, render_record, RotatingWarcRecorder, WarcRecorder};

fn header(name: &str, value: &str) -> Header {
    Header { name: name.to_string(), value: value.as_bytes().to_vec() }
}

fn meta_for(info: UrlInfo, seconds: i128, id: u8) -> ResponseMetadata {
    ResponseMetadata {
        url: info,
        status: 200,
        version: HttpVersion::Http11,
        headers: vec![header("content-type", "text/html; charset=utf-8"), header("x-test", "1")],
        remote_addr: Some("93.184.216.34:443".to_string()),
        fetched_at: Timestamp::from_unix_nanos(seconds * 1_000_000_000).unwrap(),
        id: [id; 16],
    }
}

fn entry(info: UrlInfo, seconds: i128, id: u8, body: &[u8]) -> ArchiveEntry<Vec<u8>> {
    ArchiveEntry {
        key: surt(info.url.clone()),
        body: body.to_vec(),
        meta: meta_for(info, seconds, id),
    }
}

fn gunzip_all(bytes: &[u8]) -> Vec<u8> {
    let mut out = Vec::new();
    flate2::read::MultiGzDecoder::new(bytes).read_to_end(&mut out).unwrap();
    out
}

fn gunzip_one(bytes: &[u8]) -> Vec<u8> {
    let mut out = Vec::new();
    flate2::read::GzDecoder::new(bytes).read_to_end(&mut out).unwrap();
    out
}

fn member<'a>(package: &'a Wacz, path: &str) -> &'a WaczMember {
    package.members.iter().find(|m| m.path == path).unwrap()
}

fn noise(len: usize, mut seed: u64) -> Vec<u8> {
    let mut out = Vec::with_capacity(len);
    for _ in 0..len {
        seed ^= seed << 13;
        seed ^= seed >> 7;
        seed ^= seed << 17;
        out.push((seed >> 24) as u8);
    }
    out
}

fn assert_manifest_is_true(package: &Wacz) {
    assert_eq!(package.members.len(), package.datapackage.resources.len() + 4);
    for (i, resource) in package.datapackage.resources.iter().enumerate() {
        let held = &package.members[i + 4];
        assert!(!held.directory);
        assert_eq!(held.path, resource.path);
        assert_eq!(resource.bytes, held.bytes.len() as u64);
        assert_eq!(resource.hash, file_digest(&held.bytes));
    }
}

#[test]
fn export_of_a_single_seed() {
    let seed = UrlInfo::start("https://www.example.com/").unwrap();
    let key = surt(seed.url.clone());
    let records = vec![entry(seed, 1_692_102_896, 7, b"<html/>")];
    let package = export(records, vec![key.clone()], 1 << 30, "2023-08-16T00:00:00Z").unwrap();

    let paths: Vec<&str> = package.members.iter().map(|m| m.path.as_str()).collect();
    assert_eq!(
        paths,
        vec![
            "archive/",
            "indexes/",
            "pages/",
            "datapackage.json",
            "indexes/index.cdx.gz",
            "indexes/index.idx",
            "pages/pages.jsonl",
            "pages/extraPages.jsonl",
            "archive/00000.warc.gz",
        ]
    );
    let storing: Vec<Storing> = package.members.iter().map(|m| m.storing).collect();
    assert_eq!(
        storing,
        vec![
            Storing::Stored,
            Storing::Stored,
            Storing::Deflated,
            Storing::DeflatedBest,
            Storing::Stored,
            Storing::DeflatedBest,
            Storing::DeflatedBest,
            Storing::DeflatedBest,
            Storing::Stored,
        ]
    );
    assert!(package.members[..3].iter().all(|m| m.directory && m.bytes.is_empty()));

    let warc = gunzip_one(&member(&package, "archive/00000.warc.gz").bytes);
    let text = String::from_utf8(warc).unwrap();
    let (head, rest) = text.split_once("\r\n\r\n").unwrap();
    assert!(rest.starts_with("HTTP/1.1 200 OK\r\n"));
    assert!(rest.ends_with("<html/>\r\n\r\n"));
    let block = &rest[..rest.len() - 4];
    assert_eq!(
        block,
        "HTTP/1.1 200 OK\r\ncontent-type: text/html; charset=utf-8\r\nx-test: 1\r\n\r\n<html/>"
    );
    let lines: Vec<&str> = head.split("\r\n").collect();
    assert_eq!(
        lines,
        vec![
            "WARC/1.1".to_string(),
            "WARC-Target-URI: https://www.example.com/".to_string(),
            "Content-Type: application/http;msgtype=response".to_string(),
            "WARC-Type: response".to_string(),
            "WARC-Date: 2023-08-15T12:34:56Z".to_string(),
            "WARC-Record-ID: <urn:uuid:07070707-0707-0707-0707-070707070707>".to_string(),
            "WARC-IP-Address: 93.184.216.34:443".to_string(),
            "WARC-Protocol: http/1.1".to_string(),
            format!("WARC-Block-Digest: {}", sha256_as_string(&file_digest(block.as_bytes()))),
            format!("Content-Length: {}", block.len()),
        ]
    );

    let index = String::from_utf8(gunzip_all(&member(&package, "indexes/index.cdx.gz").bytes)).unwrap();
    assert_eq!(index.lines().count(), 1);
    let warc_len = member(&package, "archive/00000.warc.gz").bytes.len();
    assert_eq!(
        index,
        format!(
            "com,example)/ 20230815123456 {{\"url\":\"https://www.example.com/\",\"digest\":\"{}\",\"mime\":\"text/html\",\"filename\":\"00000.warc.gz\",\"offset\":0,\"length\":{},\"status\":200}}\n",
            sha256_as_string(&file_digest(block.as_bytes())),
            warc_len
        )
    );

    let pages = String::from_utf8(member(&package, "pages/pages.jsonl").bytes.clone()).unwrap();
    assert_eq!(
        pages,
        "{\"format\":\"json-pages-1.0\",\"id\":\"entrypoint-pages\",\"title\":\"main pages!\"}\n{\"id\":\"07070707-0707-0707-0707-070707070707\",\"url\":\"https://www.example.com/\",\"ts\":\"2023-08-15T12:34:56Z\"}\n"
    );
    let extra = String::from_utf8(member(&package, "pages/extraPages.jsonl").bytes.clone()).unwrap();
    assert_eq!(
        extra,
        "{\"format\":\"json-pages-1.0\",\"id\":\"extra-pages\",\"title\":\"crawled pages\"}\n"
    );

    let idx = String::from_utf8(member(&package, "indexes/index.idx").bytes.clone()).unwrap();
    let block_bytes = &member(&package, "indexes/index.cdx.gz").bytes;
    assert_eq!(
        idx,
        format!(
            "com,example)/ 20230815123456 {{\"offset\":0,\"length\":{},\"digest\":\"{}\",\"filename\":\"index.cdx.gz\"}}\n",
            block_bytes.len(),
            sha256_as_string(&file_digest(block_bytes))
        )
    );

    assert_eq!(package.datapackage.profile, "data-package");
    assert_eq!(package.datapackage.wacz_version, "1.1.1");
    assert_eq!(package.datapackage.created, "2023-08-16T00:00:00Z");
    let names: Vec<&str> = package.datapackage.resources.iter().map(|r| r.name.as_str()).collect();
    assert_eq!(
        names,
        vec!["index.cdx.gz", "index.idx", "pages.jsonl", "extraPages.jsonl", "00000.warc.gz"]
    );
    assert_manifest_is_true(&package);
    assert_eq!(member(&package, "datapackage.json").bytes, package.datapackage.to_json_pretty());
}

#[test]
fn export_of_a_seed_and_a_page_on_another_host() {
    let seed = UrlInfo::start("https://zeta.example/").unwrap();
    let found = seed.clone().hop("https://alpha.example/page").unwrap();
    assert_eq!(found.hops, 1);
    let seed_key = surt(seed.url.clone());
    let records = vec![entry(seed, 100, 1, b"seed"), entry(found, 200, 2, b"found")];
    let package = export(records, vec![seed_key], 1 << 30, "2023-08-16T00:00:00Z").unwrap();

    let index = String::from_utf8(gunzip_all(&member(&package, "indexes/index.cdx.gz").bytes)).unwrap();
    let keys: Vec<&str> = index.lines().map(|l| l.split(' ').next().unwrap()).collect();
    assert_eq!(keys, vec!["example,alpha)/page", "example,zeta)/"]);

    let pages = String::from_utf8(member(&package, "pages/pages.jsonl").bytes.clone()).unwrap();
    assert_eq!(pages.lines().count(), 2);
    assert!(pages.lines().nth(1).unwrap().contains("\"url\":\"https://zeta.example/\""));
    let extra = String::from_utf8(member(&package, "pages/extraPages.jsonl").bytes.clone()).unwrap();
    assert_eq!(extra.lines().count(), 2);
    assert!(extra.lines().nth(1).unwrap().contains("\"url\":\"https://alpha.example/page\""));
    assert_manifest_is_true(&package);
}

#[test]
fn export_rotates_warc_files_past_the_threshold() {
    let mut records = Vec::new();
    for i in 0..3u8 {
        let info = UrlInfo::start(&format!("https://example.com/{i}")).unwrap();
        records.push(entry(info, 10 + i as i128, i, &noise(30 * 1024, 0x9E37_79B9 + i as u64)));
    }
    let package = export(records, Vec::new(), 64 * 1024, "2023-08-16T00:00:00Z").unwrap();
    let warcs: Vec<&WaczMember> =
        package.members.iter().filter(|m| m.path.starts_with("archive/") && !m.directory).collect();
    assert_eq!(warcs.len(), 2);
    assert_eq!(warcs[0].path, "archive/00000.warc.gz");
    assert_eq!(warcs[1].path, "archive/00001.warc.gz");
    assert!(warcs[0].bytes.len() > 64 * 1024);
    assert!(warcs[1].bytes.is_empty());
    let listed: Vec<&DataPackageEntry> =
        package.datapackage.resources.iter().filter(|r| r.path.starts_with("archive/")).collect();
    assert_eq!(listed.len(), 2);
    assert_eq!(listed[0].name, "00000.warc.gz");
    assert_eq!(listed[1].name, "00001.warc.gz");
    assert_eq!(listed[0].bytes, warcs[0].bytes.len() as u64);
    assert_eq!(listed[0].hash, file_digest(&warcs[0].bytes));
    assert_eq!(listed[1].bytes, 0);
    assert_eq!(listed[1].hash, file_digest(b""));
    assert_manifest_is_true(&package);

    let index = String::from_utf8(gunzip_all(&member(&package, "indexes/index.cdx.gz").bytes)).unwrap();
    assert_eq!(index.lines().count(), 3);
    assert!(index.lines().all(|l| l.contains("\"filename\":\"00000.warc.gz\"")));
}

#[test]
fn every_record_is_read_back_from_its_offset() {
    let bodies: Vec<Vec<u8>> = vec![b"first".to_vec(), noise(5000, 42), Vec::new()];
    let mut records = Vec::new();
    for (i, body) in bodies.iter().enumerate() {
        let info = UrlInfo::start(&format!("https://example.com/{i}")).unwrap();
        records.push(entry(info, 10 + i as i128, i as u8, body));
    }
    let package = export(records, Vec::new(), 1 << 30, "t").unwrap();
    let warc = &member(&package, "archive/00000.warc.gz").bytes;
    let index = String::from_utf8(gunzip_all(&member(&package, "indexes/index.cdx.gz").bytes)).unwrap();
    for (i, line) in index.lines().enumerate() {
        let json: serde_json::Value =
            serde_json::from_str(line.splitn(3, ' ').nth(2).unwrap()).unwrap();
        let offset = json["offset"].as_u64().unwrap() as usize;
        let length = json["length"].as_u64().unwrap() as usize;
        let record = gunzip_one(&warc[offset..offset + length]);
        let split = record.windows(4).position(|w| w == b"\r\n\r\n").unwrap();
        let head = String::from_utf8(record[..split].to_vec()).unwrap();
        let block = &record[split + 4..record.len() - 4];
        assert!(head.contains(&format!("\r\nContent-Length: {}", block.len())));
        assert!(head.contains(&format!("\r\nWARC-Block-Digest: {}", sha256_as_string(&file_digest(block)))));
        assert_eq!(json["digest"].as_str().unwrap(), sha256_as_string(&file_digest(block)));
        let body_at = block.windows(4).position(|w| w == b"\r\n\r\n").unwrap() + 4;
        assert_eq!(&block[body_at..], bodies[i].as_slice());
        assert!(block.starts_with(b"HTTP/1.1 200 OK\r\ncontent-type: text/html; charset=utf-8\r\n"));
        assert_eq!(json["status"].as_u64().unwrap(), 200);
    }
}

#[test]
fn export_does_not_depend_on_the_order_of_the_listing() {
    let urls = ["https://b.example/", "https://a.example/x", "https://a.example/", "https://c.example/"];
    let make = |order: &[usize]| {
        let records: Vec<ArchiveEntry<Vec<u8>>> = order
            .iter()
            .map(|&i| entry(UrlInfo::start(urls[i]).unwrap(), 50 + i as i128, i as u8, urls[i].as_bytes()))
            .collect();
        export(records, vec!["example,a)/".to_string()], 1 << 30, "2023-08-16T00:00:00Z").unwrap()
    };
    let first = make(&[0, 1, 2, 3]);
    let second = make(&[3, 1, 0, 2]);
    let listed = |p: &Wacz| -> Vec<(String, [u8; 32])> {
        p.datapackage.resources.iter().map(|r| (r.name.clone(), r.hash)).collect()
    };
    assert_eq!(listed(&first), listed(&second));
    assert_eq!(member(&first, "datapackage.json").bytes, member(&second, "datapackage.json").bytes);
}

#[test]
fn sort_records_orders_by_key_then_time() {
    let a = UrlInfo::start("https://a.example/").unwrap();
    let b = UrlInfo::start("https://b.example/").unwrap();
    let records = vec![
        entry(b.clone(), 5, 0, b"0"),
        entry(a.clone(), 9, 1, b"1"),
        entry(b.clone(), 1, 2, b"2"),
        entry(a.clone(), 3, 3, b"3"),
        entry(a.clone(), 3, 4, b"4"),
    ];
    let sorted = sort_records(records);
    let order: Vec<u8> = sorted.iter().map(|r| r.meta.id[0]).collect();
    assert_eq!(order, vec![3, 4, 1, 2, 0]);
}

#[test]
fn entry_points_are_found() {
    let points = EntryPoints::new(vec![
        "org,example)/".to_string(),
        "com,example)/b".to_string(),
        "com,example)/".to_string(),
        "net,example)/".to_string(),
        "com,example)/a".to_string(),
    ]);
    for key in ["org,example)/", "com,example)/b", "com,example)/", "net,example)/", "com,example)/a"] {
        assert!(points.contains(key));
    }
    for key in ["", "com,example)", "com,example)/c", "zzz", "org,example)/x"] {
        assert!(!points.contains(key));
    }
    assert!(!EntryPoints::new(Vec::new()).contains("com,example)/"));
}

#[test]
fn sorted_keys_hold_every_key_once() {
    let keys = |list: &[&str]| -> Vec<String> { list.iter().map(|k| k.to_string()).collect() };
    assert_eq!(sorted_keys(keys(&["b", "a", "b", "", "a", "ab"])), keys(&["", "a", "ab", "b"]));
    assert_eq!(sorted_keys(Vec::new()), Vec::<String>::new());
    assert_eq!(sorted_keys(keys(&["x", "x", "x"])), keys(&["x"]));
}

#[test]
fn exporter_groups_records_of_one_key_and_time() {
    let info = UrlInfo::start("https://example.com/").unwrap();
    let key = surt(info.url.clone());
    let mut exporter = Exporter::new(vec![key.clone()], 1 << 30);
    exporter.add(&key, &meta_for(info.clone(), 10, 1), b"one").unwrap();
    exporter.add(&key, &meta_for(info.clone(), 10, 2), b"two").unwrap();
    exporter.add(&key, &meta_for(info, 11, 3), b"three").unwrap();
    let package = exporter.finish("now").unwrap();
    let index = String::from_utf8(gunzip_all(&member(&package, "indexes/index.cdx.gz").bytes)).unwrap();
    let times: Vec<&str> = index.lines().map(|l| l.split(' ').nth(1).unwrap()).collect();
    assert_eq!(times, vec!["19700101000010", "19700101000010", "19700101000011"]);
    assert_manifest_is_true(&package);
}

#[test]
fn cdx_writer_cuts_blocks_of_a_thousand_lines() {
    let mut writer = CDXWriter::new();
    let record = |i: usize| CDXStyleRecord {
        key: format!("com,example)/{i:05}"),
        time: Timestamp::from_unix_nanos(0).unwrap(),
        block: CDXJBlock {
            url: format!("https://example.com/{i:05}"),
            digest: [0u8; 32],
            mime: None,
            filename: "00000.warc.gz".to_string(),
            offset: i as u64,
            length: 1,
            status: 404,
        },
    };
    writer.write_batch((0..999).map(record).collect()).unwrap();
    assert_eq!(writer.pending(), 999);
    writer.write_batch((999..2500).map(record).collect()).unwrap();
    assert_eq!(writer.pending(), 0);
    writer.write_batch((2500..2600).map(record).collect()).unwrap();
    assert_eq!(writer.pending(), 100);
    let ((index, index_entry), (idx, idx_entry)) = writer.finalize("indexes/").unwrap();
    assert_eq!(index_entry.name, "index.cdx.gz");
    assert_eq!(index_entry.path, "indexes/index.cdx.gz");
    assert_eq!(index_entry.bytes, index.len() as u64);
    assert_eq!(index_entry.hash, file_digest(&index));
    assert_eq!(idx_entry.name, "index.idx");
    assert_eq!(idx_entry.path, "indexes/index.idx");
    assert_eq!(idx_entry.bytes, idx.len() as u64);
    assert_eq!(idx_entry.hash, file_digest(&idx));

    let text = String::from_utf8(gunzip_all(&index)).unwrap();
    let lines: Vec<&str> = text.lines().collect();
    assert_eq!(lines.len(), 2600);
    assert!(lines.windows(2).all(|w| w[0] <= w[1]));
    assert!(lines[0].ends_with("\"mime\":null,\"filename\":\"00000.warc.gz\",\"offset\":0,\"length\":1,\"status\":404}"));

    let idx_text = String::from_utf8(idx).unwrap();
    let firsts: Vec<&str> = idx_text.lines().map(|l| l.split(' ').next().unwrap()).collect();
    assert_eq!(
        firsts,
        vec!["com,example)/00000", "com,example)/01000", "com,example)/02000", "com,example)/02500"]
    );
    let mut at = 0usize;
    for (n, line) in idx_text.lines().enumerate() {
        let json: serde_json::Value = serde_json::from_str(line.splitn(3, ' ').nth(2).unwrap()).unwrap();
        let offset = json["offset"].as_u64().unwrap() as usize;
        let length = json["length"].as_u64().unwrap() as usize;
        assert_eq!(offset, at);
        let block = &index[offset..offset + length];
        assert_eq!(json["digest"].as_str().unwrap(), sha256_as_string(&file_digest(block)));
        assert_eq!(json["filename"].as_str().unwrap(), "index.cdx.gz");
        let lines_in_block = String::from_utf8(gunzip_one(block)).unwrap().lines().count();
        assert_eq!(lines_in_block, [1000, 1000, 500, 100][n]);
        at += length;
    }
    assert_eq!(at, index.len());
}

#[test]
fn zipnum_record_line() {
    let record = CDXStyleRecord {
        key: "com,example)/".to_string(),
        time: Timestamp::from_unix_nanos(1_000_000_000).unwrap(),
        block: ZipNumBlock { offset: 5, length: 6, digest: [0x11; 32], filename: "index.cdx.gz".to_string() },
    };
    assert_eq!(
        String::from_utf8(record.to_line()).unwrap(),
        format!(
            "com,example)/ 19700101000001 {{\"offset\":5,\"length\":6,\"digest\":\"sha256:{}\",\"filename\":\"index.cdx.gz\"}}",
            "11".repeat(32)
        )
    );
}

#[test]
fn warc_file_names_have_five_digits() {
    assert_eq!(file_name(0), "00000.warc.gz");
    assert_eq!(file_name(42), "00042.warc.gz");
    assert_eq!(file_name(99999), "99999.warc.gz");
    assert_eq!(file_name(123456), "123456.warc.gz");
}

#[test]
fn recorder_rotates_and_lists_every_file() {
    let mut recorder = RotatingWarcRecorder::new("archive", 10);
    let info = UrlInfo::start("https://example.com/").unwrap();
    let first = recorder.write_warc("k", &meta_for(info.clone(), 1, 1), b"a").unwrap();
    assert_eq!(first.block.filename, "00000.warc.gz");
    assert_eq!(first.block.offset, 0);
    assert_eq!(recorder.counter(), 1);
    let second = recorder.write_warc("k", &meta_for(info.clone(), 2, 2), b"b").unwrap();
    assert_eq!(second.block.filename, "00001.warc.gz");
    assert_eq!(second.block.offset, 0);
    assert_eq!(second.key, "k");
    assert_eq!(second.block.url, "https://example.com/");
    assert_eq!(second.block.mime, Some("text/html".to_string()));
    assert_eq!(second.block.status, 200);
    recorder.rotate();
    recorder.add_digest(7, b"closed elsewhere".to_vec());
    let files = recorder.finalize();
    let names: Vec<&str> = files.iter().map(|(_, e)| e.name.as_str()).collect();
    assert_eq!(
        names,
        vec!["00000.warc.gz", "00001.warc.gz", "00002.warc.gz", "00007.warc.gz", "00003.warc.gz"]
    );
    assert_eq!(files[0].1.path, "archive/00000.warc.gz");
    assert_eq!(files[0].0.len() as u64, first.block.length);
    assert_eq!(files[1].0.len() as u64, second.block.length);
    assert!(files[2].0.is_empty());
    assert_eq!(files[3].0, b"closed elsewhere");
    for (bytes, entry) in &files {
        assert_eq!(entry.bytes, bytes.len() as u64);
        assert_eq!(entry.hash, file_digest(bytes));
    }
}

#[test]
fn a_file_is_closed_only_once_it_is_longer_than_the_threshold() {
    let info = UrlInfo::start("https://example.com/").unwrap();
    let mut probe = RotatingWarcRecorder::new("archive/", u64::MAX);
    let length = probe.write_warc("k", &meta_for(info.clone(), 1, 1), b"a").unwrap().block.length;
    assert_eq!(probe.counter(), 0);

    let mut exact = RotatingWarcRecorder::new("archive/", length);
    exact.write_warc("k", &meta_for(info.clone(), 1, 1), b"a").unwrap();
    assert_eq!(exact.counter(), 0);
    let second = exact.write_warc("k", &meta_for(info.clone(), 1, 1), b"a").unwrap();
    assert_eq!(second.block.offset, length);
    assert_eq!(second.block.filename, "00000.warc.gz");
    assert_eq!(exact.counter(), 1);

    let mut tight = RotatingWarcRecorder::new("archive/", length - 1);
    tight.write_warc("k", &meta_for(info, 1, 1), b"a").unwrap();
    assert_eq!(tight.counter(), 1);
}

#[test]
fn plain_file_recorder_appends_members() {
    let mut file: Vec<u8> = b"before".to_vec();
    let info = UrlInfo::start("https://example.com/").unwrap();
    let mut meta = meta_for(info, 1, 1);
    meta.remote_addr = None;
    meta.version = HttpVersion::H2;
    meta.status = 799;
    let cdx = file.write_warc("key", &meta, b"body").unwrap();
    assert_eq!(cdx.block.filename, "");
    assert_eq!(cdx.block.offset, 6);
    assert_eq!(cdx.block.length as usize, file.len() - 6);
    let record = String::from_utf8(gunzip_one(&file[6..])).unwrap();
    assert!(!record.contains("WARC-IP-Address"));
    assert!(record.contains("\r\nWARC-Protocol: h2\r\n"));
    assert!(record.contains("\r\n\r\nHTTP/2.0 799 <unknown status code>\r\n"));

    let raw = render_record(&meta, b"BLOCK", &[0u8; 32], 5);
    let text = String::from_utf8(raw).unwrap();
    assert!(text.ends_with("\r\nContent-Length: 5\r\n\r\nBLOCK\r\n\r\n"));
    let at = file.len();
    file.write_raw_warc(&meta, b"BLOCK", &[0u8; 32], 5).unwrap();
    assert_eq!(String::from_utf8(gunzip_one(&file[at..])).unwrap(), text);
}

#[test]
fn manifest_as_json() {
    let empty = DataPackage::new("2023-08-16T00:00:00Z".to_string(), Vec::new());
    assert_eq!(
        String::from_utf8(empty.to_json_pretty()).unwrap(),
        "{\n  \"profile\": \"data-package\",\n  \"wacz_version\": \"1.1.1\",\n  \"software\": \"Evergarden (https://github.com/kore-signet/evergarden)\",\n  \"created\": \"2023-08-16T00:00:00Z\",\n  \"resources\": []\n}"
    );
    let entry = |name: &str, n: u64| DataPackageEntry {
        name: name.to_string(),
        path: format!("dir/{name}"),
        hash: [0xab; 32],
        bytes: n,
    };
    let two = DataPackage::new("now".to_string(), vec![entry("a\"b", 1), entry("c", 20)]);
    let json = String::from_utf8(two.to_json_pretty()).unwrap();
    let hash = format!("sha256:{}", "ab".repeat(32));
    assert_eq!(
        json,
        format!(
            "{{\n  \"profile\": \"data-package\",\n  \"wacz_version\": \"1.1.1\",\n  \"software\": \"Evergarden (https://github.com/kore-signet/evergarden)\",\n  \"created\": \"now\",\n  \"resources\": [\n    {{\n      \"name\": \"a\\\"b\",\n      \"path\": \"dir/a\\\"b\",\n      \"hash\": \"{hash}\",\n      \"bytes\": 1\n    }},\n    {{\n      \"name\": \"c\",\n      \"path\": \"dir/c\",\n      \"hash\": \"{hash}\",\n      \"bytes\": 20\n    }}\n  ]\n}}"
        )
    );
    let value: serde_json::Value = serde_json::from_str(&json).unwrap();
    assert_eq!(serde_json::to_string_pretty(&value).unwrap().len() > 0, true);
    assert_eq!(value["resources"][1]["bytes"].as_u64(), Some(20));
}

//! Evergarden: the verified core of a web-archiving crawler.
//!
//! A crawl starts from seed URLs, fetches every URL once, keeps each
//! response in an archive under its SURT key, and shows it to scraper
//! subprocesses that may find further URLs. An export writes the archive
//! out as a WACZ package: WARC files, a CDXJ index with its secondary
//! index, two pages files, and a manifest.
//!
//! This crate holds what a crawl and an export decide and compute, each
//! function with a contract that Verus proves. Waiting, networking and
//! files are left to the program around it, which hands plain values in
//! and takes plain values back.
//!
//! * [`url`], [`surt`], [`model`]: URLs, their keys, and what a response
//!   says about itself.
//! * [`config`], [`crawl`], [`actors`], [`fetch`], [`script`],
//!   [`protocol`]: the decisions of a crawl and the frames exchanged with
//!   scrapers.
//! * [`writer`], [`warc`], [`cdxj`], [`pages`], [`package`], [`wacz`],
//!   [`export`], [`exporter`]: the export.
//! * [`text`], [`json`], [`media`], [`codec`], [`order`]: text, JSON,
//!   media types, hashing and compression, and sorting.

pub mod actors;
pub mod cdxj;
pub mod codec;
pub mod config;
pub mod crawl;
pub mod export;
pub mod exporter;
pub mod fetch;
pub mod json;
pub mod media;
pub mod model;
pub mod order;
pub mod package;
pub mod pages;
pub mod protocol;
pub mod script;
pub mod surt;
pub mod text;
pub mod url;
pub mod wacz;
pub mod warc;
pub mod writer;

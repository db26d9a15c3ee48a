//! The pages manifest: one JSON line per captured page, seeds in
//! `pages.jsonl`, everything else in `extraPages.jsonl`.

use vstd::prelude::*;
use vstd::string::*;
use crate::json::{json_string, push_json_string};
use crate::model::{hyphenated, hyphenated_outside, rfc3339_text, ResponseMetadata, ResponseMetadataView};
use crate::package::{describe_file, describes, entry_of, DataPackageEntry};
use crate::text::{push_text, utf8};
use crate::writer::RecordWriter;

verus! {

/// The first line of a pages file, with its line feed.
pub open spec fn pages_header(id: Seq<char>, title: Seq<char>) -> Seq<u8> {
    utf8("{\"format\":\"json-pages-1.0\",\"id\":"@) + json_string(id) + utf8(",\"title\":"@)
        + json_string(title) + utf8("}\n"@)
}

/// The line of one page, with its line feed: the id of the fetch, the URL,
/// and when it was fetched.
pub open spec fn page_line(meta: ResponseMetadataView) -> Seq<u8> {
    utf8("{\"id\":"@) + json_string(hyphenated(meta.id)) + utf8(",\"url\":"@) + json_string(
        meta.url.url.text,
    ) + utf8(",\"ts\":"@) + json_string(rfc3339_text(meta.fetched_at)) + utf8("}\n"@)
}

/// The header of the file of seed pages.
pub open spec fn main_header() -> Seq<u8> {
    pages_header("entrypoint-pages"@, "main pages!"@)
}

/// The header of the file of all other pages.
pub open spec fn extra_header() -> Seq<u8> {
    pages_header("extra-pages"@, "crawled pages"@)
}

/// Writes the lines of a pages file.
pub trait PageEntryWriter: RecordWriter {
    /// Writes the header line of a pages file.
    fn start_pages(&mut self, id: &str, title: &str)
        ensures
            final(self).written() == old(self).written() + pages_header(id@, title@),
    {
        let mut line: Vec<u8> = Vec::new();
        push_text(&mut line, "{\"format\":\"json-pages-1.0\",\"id\":");
        push_json_string(&mut line, id);
        push_text(&mut line, ",\"title\":");
        push_json_string(&mut line, title);
        push_text(&mut line, "}\n");
        self.write_all(line.as_slice());
    }

    /// Writes the line of one page.
    fn pages_entry(&mut self, record: &ResponseMetadata)
        ensures
            final(self).written() == old(self).written() + page_line(record@),
    {
        let mut line: Vec<u8> = Vec::new();
        push_text(&mut line, "{\"id\":");
        push_json_string(&mut line, hyphenated_outside(&record.id).as_str());
        push_text(&mut line, ",\"url\":");
        push_json_string(&mut line, record.url.url.as_str());
        push_text(&mut line, ",\"ts\":");
        push_json_string(&mut line, record.fetched_at.rfc3339());
        push_text(&mut line, "}\n");
        self.write_all(line.as_slice());
    }
}

impl PageEntryWriter for Vec<u8> {

}

/// Writes the two pages files.
#[derive(Debug)]
pub struct PagesWriter {
    main: Vec<u8>,
    extra: Vec<u8>,
}

/// The state of a [`PagesWriter`]: the two files so far.
pub ghost struct PagesWriterView {
    pub main: Seq<u8>,
    pub extra: Seq<u8>,
}

impl View for PagesWriter {
    type V = PagesWriterView;

    closed spec fn view(&self) -> PagesWriterView {
        PagesWriterView { main: self.main@, extra: self.extra@ }
    }
}

impl PagesWriter {
    /// Two files that hold their header lines and no page yet.
    pub fn new() -> (r: PagesWriter)
        ensures
            r@ == (PagesWriterView { main: main_header(), extra: extra_header() }),
    {
        let mut main: Vec<u8> = Vec::new();
        let mut extra: Vec<u8> = Vec::new();
        main.start_pages("entrypoint-pages", "main pages!");
        extra.start_pages("extra-pages", "crawled pages");
        PagesWriter { main, extra }
    }

    /// Appends the line of a page to the file of seed pages where
    /// `is_main`, to the file of the other pages where not.
    pub fn add_entry(&mut self, record: &ResponseMetadata, is_main: bool)
        ensures
            final(self)@ == if is_main {
                PagesWriterView { main: old(self)@.main + page_line(record@), ..old(self)@ }
            } else {
                PagesWriterView { extra: old(self)@.extra + page_line(record@), ..old(self)@ }
            },
    {
        if is_main {
            self.main.pages_entry(record);
        } else {
            self.extra.pages_entry(record);
        }
    }

    /// Hands back both files with their entries for the manifest:
    /// `pages.jsonl` first, then `extraPages.jsonl`.
    pub fn finalize(self, path: &str) -> (r: (
        (Vec<u8>, DataPackageEntry),
        (Vec<u8>, DataPackageEntry),
    ))
        ensures
            ({
                let ((main, main_entry), (extra, extra_entry)) = r;
                &&& main@ == self@.main
                &&& extra@ == self@.extra
                &&& main_entry@ == entry_of(path@, "pages.jsonl"@, self@.main)
                &&& extra_entry@ == entry_of(path@, "extraPages.jsonl"@, self@.extra)
                &&& describes(main_entry@, main@)
                &&& describes(extra_entry@, extra@)
            }),
    {
        let main_entry = describe_file(path, "pages.jsonl", self.main.as_slice());
        let extra_entry = describe_file(path, "extraPages.jsonl", self.extra.as_slice());
        ((self.main, main_entry), (self.extra, extra_entry))
    }
}

} // verus!

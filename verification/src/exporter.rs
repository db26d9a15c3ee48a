//! The export of an archive: its records in order, each written to the
//! WARC files, the index and the pages files, and all of it put together
//! as a package.

use vstd::prelude::*;
use vstd::string::*;
use crate::cdxj::{
    batch_taken, drained, lemma_batch_taken_keeps_lines, lemma_drained_keeps_lines, lines_view,
    CDXRecord, CDXWriter, CDXWriterView, LineView,
};
use crate::export::{
    lemma_entry_order, lemma_text_le_antisym, record_le, sort_records, texts, ArchiveEntry,
    EntryPoints,
};
use crate::model::{EvergardenError, ResponseMetadata, ResponseMetadataView};
use crate::order::{
    distinct_ranks, lemma_stable_sort_ordered, lemma_stable_sort_permutes,
    lemma_stable_sort_unique, rank, stable_sort,
};
use crate::package::DataPackageEntry;
use crate::pages::{page_line, PagesWriter, PagesWriterView};
use crate::wacz::{
    lemma_manifest_describes_members, manifest_describes, manifest_of, members_of, members_view,
    pack, resources_of, ExportFiles, Wacz,
};
use crate::warc::{
    all_files, cdx_block, recorded, response_member, warc_file_name, RecorderView,
    RotatingWarcRecorder, WarcRecorder,
};

verus! {

/// The state of an [`Exporter`].
pub ghost struct ExporterView {
    pub warc: RecorderView,
    pub cdx: CDXWriterView,
    pub pages: PagesWriterView,
    pub entry_points: Set<Seq<char>>,
    /// The index lines of the records taken in last: those of one key and
    /// one time, which go to the index together.
    pub group: Seq<LineView>,
}

/// Whether a record with that key and time begins a new group.
pub open spec fn begins_group(group: Seq<LineView>, key: Seq<char>, time: int) -> bool {
    group.len() > 0 && !(group[0].key == key && group[0].time == time)
}

/// The exporter after a record has been taken in, and whether nothing
/// failed. A record that begins a new group first sends the group before
/// it to the index. Then the record is listed in the pages file of the
/// seeds where its key is a seed's, in the other where not, written to the
/// WARC files, and its index line joins the group.
#[verifier::opaque]
pub open spec fn added(
    v: ExporterView,
    key: Seq<char>,
    meta: ResponseMetadataView,
    body: Seq<u8>,
) -> (ExporterView, bool) {
    let (cdx, sent, group) = if begins_group(v.group, key, meta.fetched_at) {
        (batch_taken(v.cdx, v.group).0, batch_taken(v.cdx, v.group).1, Seq::<LineView>::empty())
    } else {
        (v.cdx, true, v.group)
    };
    if !sent {
        (ExporterView { cdx, group, ..v }, false)
    } else {
        let pages = if v.entry_points.contains(key) {
            PagesWriterView { main: v.pages.main + page_line(meta), ..v.pages }
        } else {
            PagesWriterView { extra: v.pages.extra + page_line(meta), ..v.pages }
        };
        match response_member(meta, body) {
            None => (ExporterView { cdx, group, pages, ..v }, false),
            Some(member) => (
                ExporterView {
                    warc: recorded(v.warc, member),
                    cdx,
                    pages,
                    group: group.push(
                        LineView {
                            key,
                            time: meta.fetched_at,
                            json: crate::cdxj::cdxj_block_json(
                                cdx_block(
                                    meta,
                                    body,
                                    warc_file_name(v.warc.counter),
                                    v.warc.current.len() as u64,
                                    member.len() as u64,
                                ),
                            ),
                        },
                    ),
                    ..v
                },
                true,
            ),
        }
    }
}

/// The files of an export that is finished: the last group goes to the
/// index, the index is written out, and the current WARC file is closed.
/// With them, whether nothing failed.
pub open spec fn finished(v: ExporterView) -> (ExportFiles, bool) {
    let sent = batch_taken(v.cdx, v.group);
    let done = drained(sent.0);
    (
        ExportFiles {
            index_name: done.0.file_name,
            archive_dir: v.warc.packaged_path,
            index: done.0.out,
            secondary: done.0.aux,
            pages: v.pages.main,
            extra_pages: v.pages.extra,
            warcs: all_files(v.warc),
            lines: done.0.written,
        },
        sent.1 && done.1,
    )
}

/// Takes in the records of an archive one by one, in the order of the
/// index, and builds the package from them.
pub struct Exporter {
    warc: RotatingWarcRecorder,
    cdx: CDXWriter,
    pages: PagesWriter,
    entry_points: EntryPoints,
    group: Vec<CDXRecord>,
}

impl View for Exporter {
    type V = ExporterView;

    closed spec fn view(&self) -> ExporterView {
        ExporterView {
            warc: self.warc@,
            cdx: self.cdx@,
            pages: self.pages@,
            entry_points: self.entry_points@,
            group: lines_view(self.group@),
        }
    }
}

/// An exporter that has taken in nothing yet: one empty WARC file under
/// `archive/`, an empty index named `index.cdx.gz`, and two pages files
/// that hold their header lines.
pub open spec fn fresh(entry_points: Set<Seq<char>>, threshold: u64) -> ExporterView {
    ExporterView {
        warc: RecorderView {
            threshold,
            counter: 0,
            packaged_path: "archive/"@,
            current: Seq::empty(),
            closed: Seq::empty(),
        },
        cdx: CDXWriterView {
            file_name: "index.cdx.gz"@,
            out: Seq::empty(),
            aux: Seq::empty(),
            written: Seq::empty(),
            buffer: Seq::empty(),
        },
        pages: PagesWriterView {
            main: crate::pages::main_header(),
            extra: crate::pages::extra_header(),
        },
        entry_points,
        group: Seq::empty(),
    }
}

impl Exporter {
    /// An exporter for a crawl with these seeds. A WARC file that has grown
    /// past `threshold` bytes is closed and the next one begun.
    pub fn new(entry_points: Vec<String>, threshold: u64) -> (r: Exporter)
        ensures
            r@ == fresh(texts(entry_points@).to_set(), threshold),
    {
        let e = Exporter {
            warc: RotatingWarcRecorder::new("archive/", threshold),
            cdx: CDXWriter::new(),
            pages: PagesWriter::new(),
            entry_points: EntryPoints::new(entry_points),
            group: Vec::new(),
        };
        assert(e@.group =~= Seq::<LineView>::empty());
        e
    }

    /// The number of the WARC file that the next record goes to.
    pub fn warc_counter(&self) -> (r: usize)
        ensures
            r == self@.warc.counter,
    {
        self.warc.counter()
    }

    /// Takes in one record. Records are to come in the order of the
    /// index; those of one key and one time go to the index together.
    pub fn add(&mut self, key: &str, meta: &ResponseMetadata, body: &[u8]) -> (r: Result<
        (),
        EvergardenError,
    >)
        requires
            old(self)@.warc.counter < usize::MAX,
        ensures
            final(self)@ == added(old(self)@, key@, meta@, body@).0,
            r is Ok <==> added(old(self)@, key@, meta@, body@).1,
    {
        proof {
            reveal(added);
        }
        if self.group.len() > 0 {
            let wanted = String::from_str(key);
            let same = self.group[0].key == wanted && self.group[0].time.unix_nanos()
                == meta.fetched_at.unix_nanos();
            if !same {
                let mut batch: Vec<CDXRecord> = Vec::new();
                std::mem::swap(&mut self.group, &mut batch);
                assert(self@.group =~= Seq::<LineView>::empty());
                match self.cdx.write_batch(batch) {
                    Err(e) => {
                        return Err(e);
                    },
                    Ok(()) => {},
                }
            }
        }
        let is_main = self.entry_points.contains(key);
        self.pages.add_entry(meta, is_main);
        match self.warc.write_warc(key, meta, body) {
            Err(e) => Err(e),
            Ok(cdx) => {
                let ghost group = self@.group;
                self.group.push(cdx);
                proof {
                    assert(self@.group =~= group.push(cdx@));
                }
                Ok(())
            },
        }
    }

    /// Finishes the export: the last group goes to the index, the index
    /// is written out, the current WARC file is closed, and the package is
    /// put together. `created` is the time of the export in RFC 3339.
    /// The manifest lists the index, the secondary index, the pages, the
    /// extra pages and the WARC files, each with the digest and the length
    /// of the member that holds it. Fails where compression fails.
    pub fn finish(self, created: &str) -> (r: Result<Wacz, EvergardenError>)
        ensures
            r is Ok <==> finished(self@).1,
            r is Ok ==> {
                let files = finished(self@).0;
                &&& r.unwrap().datapackage@ == manifest_of(files, created@)
                &&& members_view(r.unwrap().members@) == members_of(files, created@)
                &&& manifest_describes(
                    r.unwrap().datapackage@.resources,
                    members_view(r.unwrap().members@),
                )
            },
    {
        let ghost files = finished(self@).0;
        let Exporter { warc, cdx, pages, entry_points: _, group } = self;
        let mut cdx = cdx;
        match cdx.write_batch(group) {
            Err(e) => {
                return Err(e);
            },
            Ok(()) => {},
        }
        let (index, secondary) = match cdx.finalize("indexes/") {
            Err(e) => {
                return Err(e);
            },
            Ok(done) => done,
        };
        let (main, extra) = pages.finalize("pages/");
        let warcs = warc.finalize();
        let mut listed: Vec<(Vec<u8>, DataPackageEntry)> = Vec::new();
        listed.push(index);
        listed.push(secondary);
        listed.push(main);
        listed.push(extra);
        let mut warcs = warcs;
        listed.append(&mut warcs);
        let package = pack(listed, created, Ghost(files));
        proof {
            lemma_manifest_describes_members(files, created@);
        }
        Ok(package)
    }
}

/// A record of an archive whose body is at hand.
pub type LoadedEntry = ArchiveEntry<Vec<u8>>;

/// The exporter after records have been taken in one after the other,
/// up to the first that fails, and whether none failed.
pub open spec fn added_all(v: ExporterView, records: Seq<LoadedEntry>) -> (ExporterView, bool)
    decreases records.len(),
{
    if records.len() == 0 {
        (v, true)
    } else {
        let next = added(v, records[0].key@, records[0].meta@, records[0].body@);
        if next.1 {
            added_all(next.0, records.drop_first())
        } else {
            next
        }
    }
}

/// The files of the export of an archive, and whether nothing failed:
/// the records are put in the order of the index, taken in one after the
/// other, and the export is finished.
pub open spec fn exported(records: Seq<LoadedEntry>, entry_points: Set<Seq<char>>, threshold: u64)
    -> (ExportFiles, bool) {
    let taken = added_all(
        fresh(entry_points, threshold),
        stable_sort(rank::<LoadedEntry>(), records),
    );
    (finished(taken.0).0, taken.1 && finished(taken.0).1)
}

/// The place of an index line: its key and its time.
pub open spec fn line_place(l: LineView) -> (Seq<char>, int) {
    (l.key, l.time)
}

/// The lines of an index are in order: by key, and lines of one key by time.
pub open spec fn lines_ordered(lines: Seq<LineView>) -> bool {
    forall|i: int, j: int|
        0 <= i < j < lines.len() ==> record_le(line_place(#[trigger] lines[i]), line_place(
            #[trigger] lines[j],
        ))
}

/// All index lines an exporter holds: those in the blocks of the index,
/// those that wait for a block, and those of the last group.
pub open spec fn all_lines(v: ExporterView) -> Seq<LineView> {
    v.cdx.written + v.cdx.buffer + v.group
}

/// The places of a list of lines.
pub open spec fn line_places(lines: Seq<LineView>) -> Seq<(Seq<char>, int)> {
    Seq::new(lines.len(), |i: int| line_place(lines[i]))
}

/// The places of a list of records.
pub open spec fn record_places(records: Seq<LoadedEntry>) -> Seq<(Seq<char>, int)> {
    Seq::new(records.len(), |i: int| records[i].place())
}

/// A record that is taken in adds one line, behind all others, at the
/// record's place. Nothing else changes about the lines or the names.
pub proof fn lemma_added_lines(
    v: ExporterView,
    key: Seq<char>,
    meta: ResponseMetadataView,
    body: Seq<u8>,
)
    requires
        added(v, key, meta, body).1,
    ensures
        line_places(all_lines(added(v, key, meta, body).0)) == line_places(all_lines(v)).push(
            (key, meta.fetched_at),
        ),
        added(v, key, meta, body).0.cdx.file_name == v.cdx.file_name,
        added(v, key, meta, body).0.warc.packaged_path == v.warc.packaged_path,
        added(v, key, meta, body).0.warc.counter <= v.warc.counter + 1,
{
    reveal(added);
    let next = added(v, key, meta, body).0;
    lemma_batch_taken_keeps_lines(v.cdx, v.group);
}

/// Records that are taken in add their lines in their order.
pub proof fn lemma_added_all_lines(v: ExporterView, records: Seq<LoadedEntry>)
    requires
        added_all(v, records).1,
    ensures
        line_places(all_lines(added_all(v, records).0)) == line_places(all_lines(v))
            + record_places(records),
        added_all(v, records).0.cdx.file_name == v.cdx.file_name,
        added_all(v, records).0.warc.packaged_path == v.warc.packaged_path,
    decreases records.len(),
{
    if records.len() == 0 {
    } else {
        let first = records[0];
        let next = added(v, first.key@, first.meta@, first.body@);
        lemma_added_lines(v, first.key@, first.meta@, first.body@);
        lemma_added_all_lines(next.0, records.drop_first());
    }
}

/// The index of every export is in order: its lines stand by key, and
/// lines of one key by time. It holds one line for every record.
pub proof fn lemma_export_index_ordered(
    records: Seq<LoadedEntry>,
    entry_points: Set<Seq<char>>,
    threshold: u64,
)
    requires
        exported(records, entry_points, threshold).1,
    ensures
        lines_ordered(exported(records, entry_points, threshold).0.lines),
        exported(records, entry_points, threshold).0.lines.len() == records.len(),
        exported(records, entry_points, threshold).0.index_name == "index.cdx.gz"@,
        exported(records, entry_points, threshold).0.archive_dir == "archive/"@,
{
    let le = rank::<LoadedEntry>();
    let sorted = stable_sort(le, records);
    let start = fresh(entry_points, threshold);
    let taken = added_all(start, sorted).0;
    lemma_entry_order::<Vec<u8>>();
    lemma_stable_sort_ordered(le, records);
    lemma_stable_sort_permutes(le, records);
    lemma_added_all_lines(start, sorted);
    lemma_batch_taken_keeps_lines(taken.cdx, taken.group);
    let sent = batch_taken(taken.cdx, taken.group).0;
    lemma_drained_keeps_lines(sent);
    let lines = exported(records, entry_points, threshold).0.lines;
    assert forall|i: int, j: int| 0 <= i < j < lines.len() implies record_le(
        line_place(#[trigger] lines[i]),
        line_place(#[trigger] lines[j]),
    ) by {
        assert(line_places(lines)[i] == record_places(sorted)[i]);
        assert(line_places(lines)[j] == record_places(sorted)[j]);
        assert(le(sorted[i], sorted[j]));
    }
}

/// Exporting an archive again gives the same files: the export does not
/// depend on the order in which the archive lists its records, where no
/// two records share a key and a time. With the files, the resources of
/// the manifest are the same, whenever the export is made.
pub proof fn lemma_export_idempotent(
    first: Seq<LoadedEntry>,
    second: Seq<LoadedEntry>,
    entry_points: Set<Seq<char>>,
    threshold: u64,
)
    requires
        first.to_multiset() == second.to_multiset(),
        forall|i: int, j: int|
            0 <= i < first.len() && 0 <= j < first.len() && (#[trigger] first[i]).place() == (
            #[trigger] first[j]).place() ==> first[i] == first[j],
    ensures
        exported(first, entry_points, threshold) == exported(second, entry_points, threshold),
        resources_of(exported(first, entry_points, threshold).0) == resources_of(
            exported(second, entry_points, threshold).0,
        ),
{
    let le = rank::<LoadedEntry>();
    lemma_entry_order::<Vec<u8>>();
    assert(distinct_ranks(le, first)) by {
        assert forall|i: int, j: int|
            0 <= i < first.len() && 0 <= j < first.len() && #[trigger] le(first[i], first[j])
                && le(first[j], first[i]) implies first[i] == first[j] by {
            let a = first[i].place();
            let b = first[j].place();
            if a.0 != b.0 {
                lemma_text_le_antisym(a.0, b.0);
            }
        }
    }
    lemma_stable_sort_unique(le, first, second);
}

/// Exports an archive whose records are at hand: puts them in the order
/// of the index, takes them in one after the other, and finishes. The
/// package is the one [`exported`] describes; every resource of its
/// manifest holds the digest and the length of the file at its path.
/// Fails where compression fails.
pub fn export(
    records: Vec<LoadedEntry>,
    entry_points: Vec<String>,
    threshold: u64,
    created: &str,
) -> (r: Result<Wacz, EvergardenError>)
    ensures
        r is Ok <==> exported(records@, texts(entry_points@).to_set(), threshold).1,
        r is Ok ==> {
            let files = exported(records@, texts(entry_points@).to_set(), threshold).0;
            &&& r.unwrap().datapackage@ == manifest_of(files, created@)
            &&& members_view(r.unwrap().members@) == members_of(files, created@)
            &&& manifest_describes(
                r.unwrap().datapackage@.resources,
                members_view(r.unwrap().members@),
            )
        },
{
    let sorted = sort_records(records);
    let mut exporter = Exporter::new(entry_points, threshold);
    let ghost start = exporter@;
    let n = sorted.len();
    let mut i: usize = 0;
    proof {
        assert(sorted@.skip(0) =~= sorted@);
    }
    while i < n
        invariant
            i <= n,
            n == sorted@.len(),
            exporter@.warc.counter <= i,
            start == fresh(texts(entry_points@).to_set(), threshold),
            sorted@ == stable_sort(rank::<LoadedEntry>(), records@),
            added_all(start, sorted@) == added_all(exporter@, sorted@.skip(i as int)),
        decreases n - i,
    {
        let ghost before = exporter@;
        let record = &sorted[i];
        proof {
            assert(sorted@.skip(i as int).drop_first() =~= sorted@.skip(i as int + 1));
        }
        match exporter.add(record.key.as_str(), &record.meta, record.body.as_slice()) {
            Err(e) => {
                return Err(e);
            },
            Ok(()) => {},
        }
        proof {
            lemma_added_lines(before, record.key@, record.meta@, record.body@);
        }
        i += 1;
    }
    match exporter.finish(created) {
        Err(e) => Err(e),
        Ok(package) => {
            Ok(package)
        },
    }
}

} // verus!

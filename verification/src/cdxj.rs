//! The CDXJ index and its ZipNum secondary index: one line per record,
//! written in gzip blocks of a thousand lines, and one line per block.

use vstd::prelude::*;
use vstd::string::*;
use crate::codec::{gzip_member, gzip_outside, sha256, sha256_outside};
use crate::json::{
    json_number, json_opt_string, json_string, push_json_number, push_json_string,
};
use crate::model::{compact_text, EvergardenError, Timestamp};
use crate::package::{
    describe_file, describes, digest_text, entry_of, sha256_as_string, DataPackageEntry,
};
use crate::text::{opt_text, push_text, utf8};

verus! {

/// How many lines go into one gzip block of the index.
pub const CDX_SPLIT_THRESHOLD: usize = 1000;

/// The compression level of the index blocks: the highest.
pub const CDX_GZIP_LEVEL: u32 = 9;

/// The JSON part of an index line.
pub trait JsonBlock {
    /// The block as JSON.
    spec fn json(&self) -> Seq<u8>;

    /// Appends the block as JSON.
    fn write_json(&self, out: &mut Vec<u8>)
        ensures
            final(out)@ == old(out)@ + self.json(),
    ;

    /// A copy of the block.
    fn duplicate(&self) -> (r: Self) where Self: Sized
        ensures
            r.json() == self.json(),
    ;
}

/// Where a captured response lies: in which WARC file, from which byte,
/// over how many bytes, and what it is.
#[derive(Debug)]
pub struct CDXJBlock {
    /// The URL of the response.
    pub url: String,
    /// The SHA-256 digest of the HTTP block.
    pub digest: [u8; 32],
    /// The media type of the response without parameters, where it told one.
    pub mime: Option<String>,
    /// The name of the WARC file.
    pub filename: String,
    /// Where the record's gzip member starts in the file.
    pub offset: u64,
    /// How long the gzip member is.
    pub length: u64,
    /// The status code of the response.
    pub status: u16,
}

/// Where a block of index lines lies in the index file.
#[derive(Debug)]
pub struct ZipNumBlock {
    /// Where the gzip block starts in the index.
    pub offset: u64,
    /// How long the gzip block is.
    pub length: u64,
    /// The SHA-256 digest of the gzip block.
    pub digest: [u8; 32],
    /// The name of the index file.
    pub filename: String,
}

/// The mathematical value of a [`CDXJBlock`].
pub ghost struct CDXJBlockView {
    pub url: Seq<char>,
    pub digest: Seq<u8>,
    pub mime: Option<Seq<char>>,
    pub filename: Seq<char>,
    pub offset: u64,
    pub length: u64,
    pub status: u16,
}

impl View for CDXJBlock {
    type V = CDXJBlockView;

    open spec fn view(&self) -> CDXJBlockView {
        CDXJBlockView {
            url: self.url@,
            digest: self.digest@,
            mime: opt_text(self.mime),
            filename: self.filename@,
            offset: self.offset,
            length: self.length,
            status: self.status,
        }
    }
}

/// The JSON of a [`CDXJBlock`], its fields in their order.
pub open spec fn cdxj_block_json(b: CDXJBlockView) -> Seq<u8> {
    utf8("{\"url\":"@) + json_string(b.url) + utf8(",\"digest\":"@) + json_string(
        digest_text(b.digest),
    ) + utf8(",\"mime\":"@) + json_opt_string(b.mime) + utf8(",\"filename\":"@) + json_string(
        b.filename,
    ) + utf8(",\"offset\":"@) + json_number(b.offset as nat) + utf8(",\"length\":"@)
        + json_number(b.length as nat) + utf8(",\"status\":"@) + json_number(b.status as nat)
        + utf8("}"@)
}

/// The JSON of a [`ZipNumBlock`], its fields in their order.
pub open spec fn zipnum_block_json(
    offset: u64,
    length: u64,
    digest: Seq<u8>,
    filename: Seq<char>,
) -> Seq<u8> {
    utf8("{\"offset\":"@) + json_number(offset as nat) + utf8(",\"length\":"@) + json_number(
        length as nat,
    ) + utf8(",\"digest\":"@) + json_string(digest_text(digest)) + utf8(",\"filename\":"@)
        + json_string(filename) + utf8("}"@)
}

impl JsonBlock for CDXJBlock {
    open spec fn json(&self) -> Seq<u8> {
        cdxj_block_json(self@)
    }

    fn write_json(&self, out: &mut Vec<u8>) {
        let mut text: Vec<u8> = Vec::new();
        push_text(&mut text, "{\"url\":");
        push_json_string(&mut text, self.url.as_str());
        push_text(&mut text, ",\"digest\":");
        push_json_string(&mut text, sha256_as_string(&self.digest).as_str());
        push_text(&mut text, ",\"mime\":");
        match &self.mime {
            Some(m) => push_json_string(&mut text, m.as_str()),
            None => push_text(&mut text, "null"),
        }
        push_text(&mut text, ",\"filename\":");
        push_json_string(&mut text, self.filename.as_str());
        push_text(&mut text, ",\"offset\":");
        push_json_number(&mut text, self.offset);
        push_text(&mut text, ",\"length\":");
        push_json_number(&mut text, self.length);
        push_text(&mut text, ",\"status\":");
        push_json_number(&mut text, self.status as u64);
        push_text(&mut text, "}");
        out.extend_from_slice(text.as_slice());
    }

    fn duplicate(&self) -> (r: Self) {
        CDXJBlock {
            url: self.url.clone(),
            digest: self.digest,
            mime: match &self.mime {
                Some(m) => Some(m.clone()),
                None => None,
            },
            filename: self.filename.clone(),
            offset: self.offset,
            length: self.length,
            status: self.status,
        }
    }
}

impl JsonBlock for ZipNumBlock {
    open spec fn json(&self) -> Seq<u8> {
        zipnum_block_json(self.offset, self.length, self.digest@, self.filename@)
    }

    fn write_json(&self, out: &mut Vec<u8>) {
        let mut text: Vec<u8> = Vec::new();
        push_text(&mut text, "{\"offset\":");
        push_json_number(&mut text, self.offset);
        push_text(&mut text, ",\"length\":");
        push_json_number(&mut text, self.length);
        push_text(&mut text, ",\"digest\":");
        push_json_string(&mut text, sha256_as_string(&self.digest).as_str());
        push_text(&mut text, ",\"filename\":");
        push_json_string(&mut text, self.filename.as_str());
        push_text(&mut text, "}");
        out.extend_from_slice(text.as_slice());
    }

    fn duplicate(&self) -> (r: Self) {
        ZipNumBlock {
            offset: self.offset,
            length: self.length,
            digest: self.digest,
            filename: self.filename.clone(),
        }
    }
}

/// One line of an index: a key, a time, and a JSON block.
#[derive(Debug)]
pub struct CDXStyleRecord<T: JsonBlock> {
    /// The SURT key.
    pub key: String,
    /// When the response was fetched.
    pub time: Timestamp,
    /// What the line points at.
    pub block: T,
}

/// A line of the CDXJ index.
pub type CDXRecord = CDXStyleRecord<CDXJBlock>;

/// What an index line is made of: key, time, and the JSON of the block.
pub ghost struct LineView {
    pub key: Seq<char>,
    pub time: int,
    pub json: Seq<u8>,
}

/// An index line without its line feed: the key, the time as fourteen
/// digits, and the block, with single spaces between them.
pub open spec fn line_of(l: LineView) -> Seq<u8> {
    utf8(l.key) + seq![32u8] + utf8(compact_text(l.time)) + seq![32u8] + l.json
}

impl<T: JsonBlock> View for CDXStyleRecord<T> {
    type V = LineView;

    open spec fn view(&self) -> LineView {
        LineView { key: self.key@, time: self.time@, json: self.block.json() }
    }
}

impl<T: JsonBlock> CDXStyleRecord<T> {
    /// The line of this record, without a line feed.
    pub fn to_line(&self) -> (r: Vec<u8>)
        ensures
            r@ == line_of(self@),
    {
        let mut out: Vec<u8> = Vec::new();
        push_text(&mut out, self.key.as_str());
        out.push(32u8);
        push_text(&mut out, self.time.compact());
        out.push(32u8);
        self.block.write_json(&mut out);
        out
    }

    /// A copy of the record.
    pub fn duplicate(&self) -> (r: Self)
        ensures
            r@ == self@,
    {
        CDXStyleRecord {
            key: self.key.clone(),
            time: self.time.clone(),
            block: self.block.duplicate(),
        }
    }
}

/// The lines of a list of records.
pub open spec fn lines_view(records: Seq<CDXRecord>) -> Seq<LineView> {
    Seq::new(records.len(), |i: int| records[i]@)
}

/// The text of a batch: every line with a line feed behind it.
pub open spec fn batch_text(lines: Seq<LineView>) -> Seq<u8>
    decreases lines.len(),
{
    if lines.len() == 0 {
        Seq::empty()
    } else {
        batch_text(lines.drop_last()) + line_of(lines.last()) + seq![10u8]
    }
}

/// The state of a [`CDXWriter`]: the index so far, the secondary index so
/// far, and the lines that wait for their block.
pub ghost struct CDXWriterView {
    /// The name of the index file.
    pub file_name: Seq<char>,
    /// The index so far: gzip block upon gzip block.
    pub out: Seq<u8>,
    /// The secondary index so far: one line per block.
    pub aux: Seq<u8>,
    /// The lines that the blocks of the index hold, in their order.
    pub written: Seq<LineView>,
    /// The lines that wait for their block.
    pub buffer: Seq<LineView>,
}

/// The line of the secondary index for a block that starts with `first`,
/// lies at `offset` of the index and holds the bytes `block`.
pub open spec fn index_line(
    file_name: Seq<char>,
    first: LineView,
    offset: nat,
    block: Seq<u8>,
) -> Seq<u8> {
    line_of(
        LineView {
            key: first.key,
            time: first.time,
            json: zipnum_block_json(offset as u64, block.len() as u64, sha256(block), file_name),
        },
    )
}

/// How many of the waiting lines the next block takes.
pub open spec fn batch_len(buffer: Seq<LineView>) -> int {
    if buffer.len() < CDX_SPLIT_THRESHOLD {
        buffer.len() as int
    } else {
        CDX_SPLIT_THRESHOLD as int
    }
}

/// The writer after its next block has been written: up to a thousand
/// waiting lines leave the buffer, their gzip block joins the index, and a
/// line for the block joins the secondary index. Nothing where compression
/// fails. A writer without waiting lines stays as it is.
pub open spec fn flushed(w: CDXWriterView) -> Option<CDXWriterView> {
    if w.buffer.len() == 0 {
        Some(w)
    } else {
        let n = batch_len(w.buffer);
        match gzip_member(CDX_GZIP_LEVEL, batch_text(w.buffer.take(n))) {
            None => None,
            Some(block) => Some(
                CDXWriterView {
                    file_name: w.file_name,
                    out: w.out + block,
                    aux: w.aux + index_line(w.file_name, w.buffer[0], w.out.len(), block) + seq![
                        10u8,
                    ],
                    written: w.written + w.buffer.take(n),
                    buffer: w.buffer.skip(n),
                },
            ),
        }
    }
}

/// The writer after block upon block has been written until no line waits
/// or compression fails, and whether all lines were written.
pub open spec fn drained(w: CDXWriterView) -> (CDXWriterView, bool)
    decreases w.buffer.len(),
{
    if w.buffer.len() == 0 {
        (w, true)
    } else {
        match flushed(w) {
            None => (w, false),
            Some(next) => drained(next),
        }
    }
}

/// The writer after a batch of lines has been taken in: the lines wait
/// behind those that waited before, and once a thousand or more wait, all
/// of them are written out. With it, whether nothing failed.
pub open spec fn batch_taken(w: CDXWriterView, batch: Seq<LineView>) -> (CDXWriterView, bool) {
    let taken = CDXWriterView { buffer: w.buffer + batch, ..w };
    if taken.buffer.len() >= CDX_SPLIT_THRESHOLD {
        drained(taken)
    } else {
        (taken, true)
    }
}

/// Writes the CDXJ index and its secondary index.
pub struct CDXWriter {
    file_name: String,
    out: Vec<u8>,
    aux: Vec<u8>,
    written: Ghost<Seq<LineView>>,
    buffer: Vec<CDXRecord>,
}

impl View for CDXWriter {
    type V = CDXWriterView;

    closed spec fn view(&self) -> CDXWriterView {
        CDXWriterView {
            file_name: self.file_name@,
            out: self.out@,
            aux: self.aux@,
            written: self.written@,
            buffer: lines_view(self.buffer@),
        }
    }
}

/// Dropping records from the front drops their lines.
proof fn lemma_lines_skip(records: Seq<CDXRecord>, n: int)
    requires
        0 <= n <= records.len(),
    ensures
        lines_view(records.skip(n)) == lines_view(records).skip(n),
{
}

/// The lines of two lists in a row are the lines of the one, then of the other.
proof fn lemma_lines_add(a: Seq<CDXRecord>, b: Seq<CDXRecord>)
    ensures
        lines_view(a + b) == lines_view(a) + lines_view(b),
{
}

/// Writing blocks changes neither the name of the index nor the order of
/// its lines: those written and those waiting, in a row, stay what they were.
pub proof fn lemma_drained_keeps_lines(w: CDXWriterView)
    ensures
        drained(w).0.file_name == w.file_name,
        drained(w).0.written + drained(w).0.buffer == w.written + w.buffer,
        drained(w).1 ==> drained(w).0.buffer.len() == 0,
    decreases w.buffer.len(),
{
    if w.buffer.len() > 0 {
        match flushed(w) {
            None => {},
            Some(next) => {
                let n = batch_len(w.buffer);
                lemma_drained_keeps_lines(next);
            },
        }
    }
}

/// Taking in a batch puts its lines behind all lines taken in before.
pub proof fn lemma_batch_taken_keeps_lines(w: CDXWriterView, batch: Seq<LineView>)
    ensures
        batch_taken(w, batch).0.file_name == w.file_name,
        batch_taken(w, batch).0.written + batch_taken(w, batch).0.buffer == w.written + w.buffer
            + batch,
{
    let taken = CDXWriterView { buffer: w.buffer + batch, ..w };
    lemma_drained_keeps_lines(taken);
}

/// Renders the first `n` records of `records` as a batch.
fn render_batch(records: &Vec<CDXRecord>, n: usize) -> (r: Vec<u8>)
    requires
        n <= records@.len(),
    ensures
        r@ == batch_text(lines_view(records@).take(n as int)),
{
    let mut out: Vec<u8> = Vec::new();
    let ghost lines = lines_view(records@);
    let mut i: usize = 0;
    while i < n
        invariant
            i <= n <= records@.len(),
            lines == lines_view(records@),
            out@ == batch_text(lines.take(i as int)),
        decreases n - i,
    {
        let line = records[i].to_line();
        out.extend_from_slice(line.as_slice());
        out.push(10u8);
        proof {
            assert(lines.take(i as int + 1).drop_last() =~= lines.take(i as int));
        }
        i += 1;
    }
    out
}

/// Removes the first `n` records.
fn drop_front(records: &mut Vec<CDXRecord>, n: usize)
    requires
        n <= old(records)@.len(),
    ensures
        final(records)@ == old(records)@.skip(n as int),
{
    let mut rest = records.split_off(n);
    std::mem::swap(records, &mut rest);
}

impl CDXWriter {
    /// A writer with an empty index named `index.cdx.gz`.
    pub fn new() -> (r: CDXWriter)
        ensures
            r@ == (CDXWriterView {
                file_name: "index.cdx.gz"@,
                out: Seq::empty(),
                aux: Seq::empty(),
                written: Seq::empty(),
                buffer: Seq::empty(),
            }),
    {
        let w = CDXWriter {
            file_name: String::from_str("index.cdx.gz"),
            out: Vec::new(),
            aux: Vec::new(),
            written: Ghost(Seq::empty()),
            buffer: Vec::new(),
        };
        assert(w@.buffer =~= Seq::<LineView>::empty());
        w
    }

    /// How many lines wait for their block.
    pub fn pending(&self) -> (r: usize)
        ensures
            r == self@.buffer.len(),
    {
        self.buffer.len()
    }

    /// Writes the next block: up to a thousand waiting lines are compressed
    /// into one gzip block, which is appended to the index, and a line that
    /// says where the block lies is appended to the secondary index. Fails,
    /// and changes nothing, where compression fails.
    pub fn flush_lines(&mut self) -> (r: Result<(), EvergardenError>)
        ensures
            match flushed(old(self)@) {
                Some(w) => r is Ok && final(self)@ == w,
                None => r is Err && final(self)@ == old(self)@,
            },
    {
        if self.buffer.len() == 0 {
            return Ok(());
        }
        let n = if self.buffer.len() < CDX_SPLIT_THRESHOLD {
            self.buffer.len()
        } else {
            CDX_SPLIT_THRESHOLD
        };
        let text = render_batch(&self.buffer, n);
        let ghost before = self@;
        match gzip_outside(text.as_slice(), CDX_GZIP_LEVEL) {
            None => Err(EvergardenError::IO(String::from_str("gzip failed"))),
            Some(block) => {
                let index = CDXStyleRecord {
                    key: self.buffer[0].key.clone(),
                    time: self.buffer[0].time.clone(),
                    block: ZipNumBlock {
                        offset: self.out.len() as u64,
                        length: block.len() as u64,
                        digest: sha256_outside(block.as_slice()),
                        filename: self.file_name.clone(),
                    },
                };
                let line = index.to_line();
                self.aux.extend_from_slice(line.as_slice());
                self.aux.push(10u8);
                self.out.extend_from_slice(block.as_slice());
                self.written = Ghost(before.written + before.buffer.take(n as int));
                drop_front(&mut self.buffer, n);
                proof {
                    lemma_lines_skip(old(self).buffer@, n as int);
                    let w = CDXWriterView {
                        file_name: before.file_name,
                        out: before.out + block@,
                        aux: before.aux + index_line(
                            before.file_name,
                            before.buffer[0],
                            before.out.len(),
                            block@,
                        ) + seq![10u8],
                        written: before.written + before.buffer.take(n as int),
                        buffer: before.buffer.skip(n as int),
                    };
                    assert(self@.out =~= w.out);
                    assert(self@.aux =~= w.aux);
                }
                Ok(())
            },
        }
    }

    /// Writes blocks until no line waits. Stops at the first failure.
    pub fn flush_all(&mut self) -> (r: Result<(), EvergardenError>)
        ensures
            final(self)@ == drained(old(self)@).0,
            r is Ok <==> drained(old(self)@).1,
    {
        while self.buffer.len() > 0
            invariant
                drained(self@) == drained(old(self)@),
            decreases self@.buffer.len(),
        {
            match self.flush_lines() {
                Ok(()) => {},
                Err(e) => {
                    return Err(e);
                },
            }
        }
        Ok(())
    }

    /// Takes in a batch of records, in the order given. Once a thousand
    /// lines or more wait, all of them are written out, block by block.
    pub fn write_batch(&mut self, batch: Vec<CDXRecord>) -> (r: Result<(), EvergardenError>)
        ensures
            final(self)@ == batch_taken(old(self)@, lines_view(batch@)).0,
            r is Ok <==> batch_taken(old(self)@, lines_view(batch@)).1,
    {
        let ghost given = batch@;
        let mut batch = batch;
        self.buffer.append(&mut batch);
        proof {
            lemma_lines_add(old(self).buffer@, given);
        }
        if self.buffer.len() >= CDX_SPLIT_THRESHOLD {
            self.flush_all()
        } else {
            Ok(())
        }
    }

    /// Writes out the waiting lines and hands back both files with their
    /// entries for the manifest: the index first, then the secondary index,
    /// named `index.idx`. Fails where compression fails.
    pub fn finalize(self, dir: &str) -> (r: Result<
        ((Vec<u8>, DataPackageEntry), (Vec<u8>, DataPackageEntry)),
        EvergardenError,
    >)
        ensures
            r is Ok <==> drained(self@).1,
            r is Ok ==> {
                let done = drained(self@).0;
                let ((out, out_entry), (aux, aux_entry)) = r.unwrap();
                &&& out@ == done.out
                &&& aux@ == done.aux
                &&& out_entry@ == entry_of(dir@, done.file_name, done.out)
                &&& aux_entry@ == entry_of(dir@, "index.idx"@, done.aux)
                &&& describes(out_entry@, out@)
                &&& describes(aux_entry@, aux@)
            },
    {
        let mut writer = self;
        match writer.flush_all() {
            Err(e) => Err(e),
            Ok(()) => {
                let out_entry = describe_file(dir, writer.file_name.as_str(), writer.out.as_slice());
                let aux_entry = describe_file(dir, "index.idx", writer.aux.as_slice());
                Ok(((writer.out, out_entry), (writer.aux, aux_entry)))
            },
        }
    }
}

} // verus!

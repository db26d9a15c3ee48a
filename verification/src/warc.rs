//! WARC records and the files they are written to. Every record is one
//! gzip member, so a record can be read from its offset alone. A file that
//! has grown past a threshold is closed and the next one begun.

use vstd::prelude::*;
use vstd::string::*;
use crate::cdxj::{CDXJBlock, CDXJBlockView, CDXRecord, CDXStyleRecord};
use crate::codec::{gzip_member, gzip_outside, sha256, sha256_outside};
use crate::media::{content_essence, declared_essence};
use crate::model::{
    hyphenated, hyphenated_outside, rfc3339_text, EvergardenError, HttpVersion,
    ResponseMetadata, ResponseMetadataView,
};
use crate::package::{
    describe_file, describes, digest_text, entry_of, sha256_as_string, DataPackageEntry,
};
use crate::text::{decimal, format_decimal, pad_decimal, push_text, utf8, zero_padded};
use crate::writer::{crlf, header_bytes, http_block, line_bytes, HttpResponseWriter, RecordWriter};

verus! {

/// The compression level of WARC records.
pub const WARC_GZIP_LEVEL: u32 = 5;

/// The length past which an export closes a WARC file: one gigabyte.
pub const WARC_ROTATION_THRESHOLD: u64 = 1_000_000_000;

/// How `WARC-Protocol` names a version of HTTP.
pub open spec fn protocol_text(v: HttpVersion) -> Seq<char> {
    match v {
        HttpVersion::Http09 => "http/0.9"@,
        HttpVersion::Http10 => "http/1.0"@,
        HttpVersion::Http11 => "http/1.1"@,
        HttpVersion::H2 => "h2"@,
        HttpVersion::H3 => "h3"@,
    }
}

/// The `WARC-IP-Address` line of a record, where the address is known.
pub open spec fn address_line(addr: Option<Seq<char>>) -> Seq<u8> {
    match addr {
        Some(a) => header_bytes(utf8("WARC-IP-Address"@), utf8(a)),
        None => Seq::empty(),
    }
}

/// The value of `WARC-Record-ID`: the id as a UUID URN in angle brackets.
pub open spec fn record_id(id: Seq<u8>) -> Seq<u8> {
    utf8("<urn:uuid:"@) + utf8(hyphenated(id)) + utf8(">"@)
}

/// The head of a WARC record: the version line, the headers in their
/// order, and an empty line.
pub open spec fn warc_head(meta: ResponseMetadataView, digest: Seq<u8>, content_len: u64) -> Seq<
    u8,
> {
    line_bytes(utf8("WARC/1.1"@)) + header_bytes(
        utf8("WARC-Target-URI"@),
        utf8(meta.url.url.text),
    ) + header_bytes(utf8("Content-Type"@), utf8("application/http;msgtype=response"@))
        + header_bytes(utf8("WARC-Type"@), utf8("response"@)) + header_bytes(
        utf8("WARC-Date"@),
        utf8(rfc3339_text(meta.fetched_at)),
    ) + header_bytes(utf8("WARC-Record-ID"@), record_id(meta.id)) + address_line(meta.remote_addr)
        + header_bytes(utf8("WARC-Protocol"@), utf8(protocol_text(meta.version))) + header_bytes(
        utf8("WARC-Block-Digest"@),
        utf8(digest_text(digest)),
    ) + header_bytes(utf8("Content-Length"@), utf8(decimal(content_len as nat))) + crlf()
}

/// A WARC record before compression: head, block, and two line ends.
pub open spec fn warc_record(
    meta: ResponseMetadataView,
    block: Seq<u8>,
    digest: Seq<u8>,
    content_len: u64,
) -> Seq<u8> {
    warc_head(meta, digest, content_len) + block + crlf() + crlf()
}

/// The WARC record of a response: its block is the HTTP block of the
/// response, `WARC-Block-Digest` is the SHA-256 digest of that block and
/// `Content-Length` is its length.
pub open spec fn response_record(meta: ResponseMetadataView, body: Seq<u8>) -> Seq<u8> {
    let block = http_block(meta, body);
    warc_record(meta, block, sha256(block), block.len() as u64)
}

/// The gzip member of a response's record, or nothing where compression
/// fails.
pub open spec fn response_member(meta: ResponseMetadataView, body: Seq<u8>) -> Option<Seq<u8>> {
    gzip_member(WARC_GZIP_LEVEL, response_record(meta, body))
}

/// What the index says of a response whose record lies in `filename` at
/// `offset` and is `length` bytes long: its URL, the digest of its HTTP
/// block, its media type, and its status.
pub open spec fn cdx_block(
    meta: ResponseMetadataView,
    body: Seq<u8>,
    filename: Seq<char>,
    offset: u64,
    length: u64,
) -> CDXJBlockView {
    CDXJBlockView {
        url: meta.url.url.text,
        digest: sha256(http_block(meta, body)),
        mime: declared_essence(meta.headers),
        filename,
        offset,
        length,
        status: meta.status,
    }
}

/// The record is the index line of a response under a key.
pub open spec fn indexes(
    record: CDXRecord,
    key: Seq<char>,
    meta: ResponseMetadataView,
    block: CDXJBlockView,
) -> bool {
    record.key@ == key && record.time@ == meta.fetched_at && record.block@ == block
}

/// The name of the WARC file with that number: five digits and `.warc.gz`.
pub open spec fn warc_file_name(index: nat) -> Seq<char> {
    zero_padded(index, 5) + ".warc.gz"@
}

/// Writes the name of the WARC file with that number.
pub fn file_name(index: usize) -> (r: String)
    ensures
        r@ == warc_file_name(index as nat),
{
    let mut out = pad_decimal(index as u64, 5);
    out.append(".warc.gz");
    out
}

/// Renders a WARC record around a block that has been rendered already.
pub fn render_record(
    meta: &ResponseMetadata,
    http_block: &[u8],
    digest: &[u8; 32],
    content_len: u64,
) -> (r: Vec<u8>)
    ensures
        r@ == warc_record(meta@, http_block@, digest@, content_len),
{
    let mut out: Vec<u8> = Vec::new();
    out.line("WARC/1.1".as_bytes());
    out.header("WARC-Target-URI".as_bytes(), meta.url.url.as_str().as_bytes());
    out.header("Content-Type".as_bytes(), "application/http;msgtype=response".as_bytes());
    out.header("WARC-Type".as_bytes(), "response".as_bytes());
    out.header("WARC-Date".as_bytes(), meta.fetched_at.rfc3339().as_bytes());
    let mut id: Vec<u8> = Vec::new();
    push_text(&mut id, "<urn:uuid:");
    push_text(&mut id, hyphenated_outside(&meta.id).as_str());
    push_text(&mut id, ">");
    out.header("WARC-Record-ID".as_bytes(), id.as_slice());
    match &meta.remote_addr {
        Some(addr) => out.header("WARC-IP-Address".as_bytes(), addr.as_str().as_bytes()),
        None => {},
    }
    let protocol = match meta.version {
        HttpVersion::Http09 => "http/0.9",
        HttpVersion::Http10 => "http/1.0",
        HttpVersion::Http11 => "http/1.1",
        HttpVersion::H2 => "h2",
        HttpVersion::H3 => "h3",
    };
    out.header("WARC-Protocol".as_bytes(), protocol.as_bytes());
    out.header("WARC-Block-Digest".as_bytes(), sha256_as_string(digest).as_str().as_bytes());
    out.header("Content-Length".as_bytes(), format_decimal(content_len).as_str().as_bytes());
    out.line_end();
    out.extend_from_slice(http_block);
    out.line_end();
    out.line_end();
    out
}

/// Something WARC records are written to.
pub trait WarcRecorder {
    /// The bytes of the file that the next record goes to.
    spec fn current(&self) -> Seq<u8>;

    /// The name that index lines give for the file that the next record
    /// goes to.
    spec fn current_name(&self) -> Seq<char>;

    /// Whether another record can be taken.
    spec fn ready(&self) -> bool;

    /// Writes the record of a response and says where it lies: the index
    /// line holds the URL, the digest of the HTTP block, the media type,
    /// the file, the offset and length of the record's gzip member, and
    /// the status. Fails where compression fails.
    fn write_warc(&mut self, surt: &str, meta: &ResponseMetadata, body: &[u8]) -> (r: Result<
        CDXRecord,
        EvergardenError,
    >)
        requires
            old(self).ready(),
        ensures
            match response_member(meta@, body@) {
                None => r is Err,
                Some(member) => r is Ok && indexes(
                    r.unwrap(),
                    surt@,
                    meta@,
                    cdx_block(
                        meta@,
                        body@,
                        old(self).current_name(),
                        old(self).current().len() as u64,
                        member.len() as u64,
                    ),
                ),
            },
    ;

    /// Writes a record around a block that has been rendered already, as
    /// one gzip member behind what the current file holds. Fails, and
    /// changes nothing, where compression fails.
    fn write_raw_warc(
        &mut self,
        meta: &ResponseMetadata,
        http_block: &[u8],
        digest: &[u8; 32],
        content_len: u64,
    ) -> (r: Result<(), EvergardenError>)
        ensures
            match gzip_member(
                WARC_GZIP_LEVEL,
                warc_record(meta@, http_block@, digest@, content_len),
            ) {
                None => r is Err && final(self).current() == old(self).current(),
                Some(member) => r is Ok && final(self).current() == old(self).current() + member,
            },
            final(self).current_name() == old(self).current_name(),
            final(self).ready() == old(self).ready(),
    ;
}

impl WarcRecorder for Vec<u8> {
    open spec fn current(&self) -> Seq<u8> {
        self@
    }

    open spec fn current_name(&self) -> Seq<char> {
        Seq::empty()
    }

    open spec fn ready(&self) -> bool {
        true
    }

    fn write_warc(&mut self, surt: &str, meta: &ResponseMetadata, body: &[u8]) -> (r: Result<
        CDXRecord,
        EvergardenError,
    >)
        ensures
            match response_member(meta@, body@) {
                None => final(self)@ == old(self)@,
                Some(member) => final(self)@ == old(self)@ + member,
            },
    {
        let mut block: Vec<u8> = Vec::new();
        let content_len = block.write_http_response(meta, body);
        let block_digest = sha256_outside(block.as_slice());
        let start_position = self.len() as u64;
        match self.write_raw_warc(meta, block.as_slice(), &block_digest, content_len) {
            Err(e) => Err(e),
            Ok(()) => {
                let end_position = self.len() as u64;
                Ok(
                    CDXStyleRecord {
                        key: String::from_str(surt),
                        time: meta.fetched_at.clone(),
                        block: CDXJBlock {
                            url: meta.url.url.text.clone(),
                            digest: block_digest,
                            mime: content_essence(&meta.headers),
                            filename: String::new(),
                            offset: start_position,
                            length: end_position - start_position,
                            status: meta.status,
                        },
                    },
                )
            },
        }
    }

    fn write_raw_warc(
        &mut self,
        meta: &ResponseMetadata,
        http_block: &[u8],
        digest: &[u8; 32],
        content_len: u64,
    ) -> (r: Result<(), EvergardenError>) {
        let record = render_record(meta, http_block, digest, content_len);
        match gzip_outside(record.as_slice(), WARC_GZIP_LEVEL) {
            None => Err(EvergardenError::IO(String::from_str("gzip failed"))),
            Some(member) => {
                self.extend_from_slice(member.as_slice());
                Ok(())
            },
        }
    }
}

/// A WARC file that has been closed: its number and its bytes.
#[derive(Debug)]
struct ClosedWarc {
    index: usize,
    bytes: Vec<u8>,
}

/// Writes WARC records to numbered files and begins a new file whenever
/// the current one has grown past a threshold.
#[derive(Debug)]
pub struct RotatingWarcRecorder {
    threshold: u64,
    counter: usize,
    packaged_path: String,
    current_file: Vec<u8>,
    closed: Vec<ClosedWarc>,
}

/// The state of a [`RotatingWarcRecorder`].
pub ghost struct RecorderView {
    /// The length past which a file is closed.
    pub threshold: u64,
    /// The number of the current file.
    pub counter: nat,
    /// The directory of the files inside the package.
    pub packaged_path: Seq<char>,
    /// The bytes of the current file.
    pub current: Seq<u8>,
    /// The closed files, each with its number, in the order they were closed.
    pub closed: Seq<(nat, Seq<u8>)>,
}

/// The recorder after the current file has been closed and the next begun.
pub open spec fn rotated(v: RecorderView) -> RecorderView {
    RecorderView {
        counter: v.counter + 1,
        current: Seq::empty(),
        closed: v.closed.push((v.counter, v.current)),
        ..v
    }
}

/// The recorder after a gzip member has been written: the member stands
/// behind what the current file held, and where the file has grown past
/// the threshold it is closed.
pub open spec fn recorded(v: RecorderView, member: Seq<u8>) -> RecorderView {
    let grown = RecorderView { current: v.current + member, ..v };
    if grown.current.len() > v.threshold {
        rotated(grown)
    } else {
        grown
    }
}

/// All files of a recorder: the closed ones, then the current one.
pub open spec fn all_files(v: RecorderView) -> Seq<(nat, Seq<u8>)> {
    v.closed.push((v.counter, v.current))
}

/// The closed files of a recorder as numbers and bytes.
spec fn closed_view(closed: Seq<ClosedWarc>) -> Seq<(nat, Seq<u8>)> {
    Seq::new(closed.len(), |i: int| (closed[i].index as nat, closed[i].bytes@))
}

impl View for RotatingWarcRecorder {
    type V = RecorderView;

    closed spec fn view(&self) -> RecorderView {
        RecorderView {
            threshold: self.threshold,
            counter: self.counter as nat,
            packaged_path: self.packaged_path@,
            current: self.current_file@,
            closed: closed_view(self.closed@),
        }
    }
}

impl RotatingWarcRecorder {
    /// A recorder with one empty file, number 0. `packaged_path` is the
    /// directory of the files inside the package.
    pub fn new(packaged_path: &str, threshold: u64) -> (r: RotatingWarcRecorder)
        ensures
            r@ == (RecorderView {
                threshold,
                counter: 0,
                packaged_path: packaged_path@,
                current: Seq::empty(),
                closed: Seq::empty(),
            }),
    {
        let r = RotatingWarcRecorder {
            threshold,
            counter: 0,
            packaged_path: String::from_str(packaged_path),
            current_file: Vec::new(),
            closed: Vec::new(),
        };
        assert(r@.closed =~= Seq::<(nat, Seq<u8>)>::empty());
        r
    }

    /// The number of the current file.
    pub fn counter(&self) -> (r: usize)
        ensures
            r == self@.counter,
    {
        self.counter
    }

    /// Closes the current file and begins the next.
    pub fn rotate(&mut self)
        requires
            old(self)@.counter < usize::MAX,
        ensures
            final(self)@ == rotated(old(self)@),
    {
        let mut old_file: Vec<u8> = Vec::new();
        std::mem::swap(&mut self.current_file, &mut old_file);
        let closing = self.counter;
        self.counter = self.counter + 1;
        self.add_digest(closing, old_file);
    }

    /// Files a closed file under a number; its digest is taken when the
    /// recorder is finalized.
    pub fn add_digest(&mut self, idx: usize, file: Vec<u8>)
        ensures
            final(self)@ == (RecorderView {
                closed: old(self)@.closed.push((idx as nat, file@)),
                ..old(self)@
            }),
    {
        self.closed.push(ClosedWarc { index: idx, bytes: file });
        assert(self@.closed =~= old(self)@.closed.push((idx as nat, file@)));
    }

    /// Closes the current file and hands back every file with its entry
    /// for the manifest, in the order of their numbers: each entry names
    /// the file by its number, places it under the packaged path, and
    /// holds the digest and the length of the file's bytes.
    pub fn finalize(self) -> (r: Vec<(Vec<u8>, DataPackageEntry)>)
        ensures
            r@.len() == all_files(self@).len(),
            forall|i: int|
                0 <= i < r@.len() ==> {
                    let (index, bytes) = #[trigger] all_files(self@)[i];
                    &&& r@[i].0@ == bytes
                    &&& r@[i].1@ == entry_of(self@.packaged_path, warc_file_name(index), bytes)
                    &&& describes(r@[i].1@, r@[i].0@)
                },
    {
        let ghost files = all_files(self@);
        let RotatingWarcRecorder { threshold: _, counter, packaged_path, current_file, closed } =
            self;
        let mut closed = closed;
        closed.push(ClosedWarc { index: counter, bytes: current_file });
        let mut out: Vec<(Vec<u8>, DataPackageEntry)> = Vec::new();
        let n = closed.len();
        let mut i: usize = 0;
        while i < n
            invariant
                i <= n,
                n == closed@.len(),
                n == files.len(),
                out@.len() == i,
                forall|k: int|
                    i <= k < n ==> ((#[trigger] closed@[k]).index as nat, closed@[k].bytes@)
                        == files[k],
                forall|k: int|
                    0 <= k < i ==> {
                        let (index, bytes) = #[trigger] files[k];
                        &&& out@[k].0@ == bytes
                        &&& out@[k].1@ == entry_of(packaged_path@, warc_file_name(index), bytes)
                        &&& describes(out@[k].1@, out@[k].0@)
                    },
            decreases n - i,
        {
            let mut file = ClosedWarc { index: 0, bytes: Vec::new() };
            std::mem::swap(&mut file, &mut closed[i]);
            let name = file_name(file.index);
            let entry = describe_file(packaged_path.as_str(), name.as_str(), file.bytes.as_slice());
            out.push((file.bytes, entry));
            i += 1;
        }
        out
    }
}

impl WarcRecorder for RotatingWarcRecorder {
    open spec fn current(&self) -> Seq<u8> {
        self@.current
    }

    open spec fn current_name(&self) -> Seq<char> {
        warc_file_name(self@.counter)
    }

    open spec fn ready(&self) -> bool {
        self@.counter < usize::MAX
    }

    fn write_warc(&mut self, surt: &str, meta: &ResponseMetadata, body: &[u8]) -> (r: Result<
        CDXRecord,
        EvergardenError,
    >)
        ensures
            match response_member(meta@, body@) {
                None => final(self)@ == old(self)@,
                Some(member) => final(self)@ == recorded(old(self)@, member),
            },
    {
        match self.current_file.write_warc(surt, meta, body) {
            Err(e) => Err(e),
            Ok(cdx) => {
                let mut cdx = cdx;
                cdx.block.filename = file_name(self.counter);
                let end = self.current_file.len() as u64;
                if end > self.threshold {
                    self.rotate();
                }
                Ok(cdx)
            },
        }
    }

    fn write_raw_warc(
        &mut self,
        meta: &ResponseMetadata,
        http_block: &[u8],
        digest: &[u8; 32],
        content_len: u64,
    ) -> (r: Result<(), EvergardenError>)
        ensures
            final(self)@ == (RecorderView { current: final(self)@.current, ..old(self)@ }),
    {
        self.current_file.write_raw_warc(meta, http_block, digest, content_len)
    }
}

} // verus!

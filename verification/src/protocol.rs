//! The wire protocol between the crawler and its scraper subprocesses:
//! length-prefixed frames, all integers little-endian.

use vstd::prelude::*;
use vstd::string::*;
use vstd::utf8::{decode_utf8, valid_utf8};
use crate::text::{string_from_utf8, utf8};

verus! {

/// What a scraper asks of the crawler.
#[derive(Debug, PartialEq, Eq)]
pub enum ClientRequest {
    /// A URL that the scraper found; opcode 0.
    Submit { url: String },
    /// A URL that the scraper wants fetched and handed back; opcode 1.
    Fetch { url: String },
    /// The scraper is done with the response; opcode 2.
    EndFile,
}

/// What the crawler sends to a scraper.
#[derive(Clone, Copy, Debug, PartialEq, Eq, Structural)]
pub enum ServerRequest {
    /// A response to scrape; opcode 0.
    Submit,
    /// The answer to a `Fetch`; opcode 1.
    AnswerFetch,
    /// The scraper is to exit; opcode 2.
    CloseScript,
}

impl ServerRequest {
    /// The opcode of the frame.
    pub open spec fn opcode(self) -> u8 {
        match self {
            ServerRequest::Submit => 0,
            ServerRequest::AnswerFetch => 1,
            ServerRequest::CloseScript => 2,
        }
    }

    /// The opcode of the frame.
    pub fn code(&self) -> (r: u8)
        ensures
            r == self.opcode(),
    {
        match self {
            ServerRequest::Submit => 0,
            ServerRequest::AnswerFetch => 1,
            ServerRequest::CloseScript => 2,
        }
    }
}

/// The mathematical value of a [`ClientRequest`].
pub ghost enum ClientRequestView {
    Submit { url: Seq<char> },
    Fetch { url: Seq<char> },
    EndFile,
}

impl View for ClientRequest {
    type V = ClientRequestView;

    open spec fn view(&self) -> ClientRequestView {
        match self {
            ClientRequest::Submit { url } => ClientRequestView::Submit { url: url@ },
            ClientRequest::Fetch { url } => ClientRequestView::Fetch { url: url@ },
            ClientRequest::EndFile => ClientRequestView::EndFile,
        }
    }
}

/// A number as `width` bytes, the lowest first.
pub open spec fn le_bytes(n: nat, width: nat) -> Seq<u8>
    decreases width,
{
    if width == 0 {
        Seq::empty()
    } else {
        seq![(n % 256) as u8] + le_bytes(n / 256, (width - 1) as nat)
    }
}

/// The number that bytes hold, the lowest first.
pub open spec fn le_value(bytes: Seq<u8>) -> nat
    decreases bytes.len(),
{
    if bytes.len() == 0 {
        0
    } else {
        bytes[0] as nat + 256 * le_value(bytes.drop_first())
    }
}

/// One chunk of a body on the wire: its length in eight bytes, then its bytes.
pub open spec fn chunk_frame(chunk: Seq<u8>) -> Seq<u8> {
    le_bytes(chunk.len(), 8) + chunk
}

/// The chunks of a body on the wire, one after the other.
pub open spec fn chunk_frames(chunks: Seq<Seq<u8>>) -> Seq<u8>
    decreases chunks.len(),
{
    if chunks.len() == 0 {
        Seq::empty()
    } else {
        chunk_frames(chunks.drop_last()) + chunk_frame(chunks.last())
    }
}

/// The end of a body on the wire: a length of zero.
pub open spec fn body_end() -> Seq<u8> {
    le_bytes(0, 8)
}

/// The head of a response on the wire: the length of the metadata in
/// eight bytes, then the metadata as JSON.
pub open spec fn response_head(meta_json: Seq<u8>) -> Seq<u8> {
    le_bytes(meta_json.len(), 8) + meta_json
}

/// A response on the wire: head, chunks, end.
pub open spec fn response_frames(meta_json: Seq<u8>, chunks: Seq<Seq<u8>>) -> Seq<u8> {
    response_head(meta_json) + chunk_frames(chunks) + body_end()
}

/// A `Submit` frame: opcode 0 and the response.
pub open spec fn submit_frame(meta_json: Seq<u8>, chunks: Seq<Seq<u8>>) -> Seq<u8> {
    seq![0u8] + response_frames(meta_json, chunks)
}

/// An `AnswerFetch` frame that carries a response: opcode 1, a zero, and
/// the response.
pub open spec fn answer_fetch_frame(meta_json: Seq<u8>, chunks: Seq<Seq<u8>>) -> Seq<u8> {
    seq![1u8, 0u8] + response_frames(meta_json, chunks)
}

/// An `AnswerFetch` frame that carries an error: opcode 1, a one, the
/// length of the message in eight bytes, and the message.
pub open spec fn error_fetch_frame(message: Seq<char>) -> Seq<u8> {
    seq![1u8, 1u8] + le_bytes(utf8(message).len(), 8) + utf8(message)
}

/// A `CloseScript` frame: opcode 2.
pub open spec fn close_script_frame() -> Seq<u8> {
    seq![2u8]
}

/// Appends a number as eight bytes, the lowest first.
pub fn push_u64_le(out: &mut Vec<u8>, n: u64)
    ensures
        final(out)@ == old(out)@ + le_bytes(n as nat, 8),
{
    let mut rest: u64 = n;
    let mut i: usize = 0;
    while i < 8
        invariant
            i <= 8,
            old(out)@ + le_bytes(n as nat, 8) == out@ + le_bytes(rest as nat, (8 - i) as nat),
        decreases 8 - i,
    {
        out.push((rest % 256) as u8);
        rest = rest / 256;
        i += 1;
    }
}

/// Builds the frames that the crawler sends to a scraper. The frames
/// gather in the writer until they are taken out to be sent.
#[derive(Debug)]
pub struct ClientWriter {
    writer: Vec<u8>,
}

impl View for ClientWriter {
    type V = Seq<u8>;

    closed spec fn view(&self) -> Seq<u8> {
        self.writer@
    }
}

impl ClientWriter {
    /// A writer that holds nothing.
    pub fn new() -> (r: ClientWriter)
        ensures
            r@ == Seq::<u8>::empty(),
    {
        ClientWriter { writer: Vec::new() }
    }

    /// Takes out what has gathered, to be sent and flushed.
    pub fn take(&mut self) -> (r: Vec<u8>)
        ensures
            r@ == old(self)@,
            final(self)@ == Seq::<u8>::empty(),
    {
        let mut out: Vec<u8> = Vec::new();
        std::mem::swap(&mut self.writer, &mut out);
        out
    }

    /// Writes the head of a response: the length of the metadata and the
    /// metadata.
    pub fn write_head(&mut self, meta_json: &[u8])
        ensures
            final(self)@ == old(self)@ + response_head(meta_json@),
    {
        push_u64_le(&mut self.writer, meta_json.len() as u64);
        self.writer.extend_from_slice(meta_json);
    }

    /// Writes one chunk of a body.
    pub fn write_chunk(&mut self, chunk: &[u8])
        ensures
            final(self)@ == old(self)@ + chunk_frame(chunk@),
    {
        push_u64_le(&mut self.writer, chunk.len() as u64);
        self.writer.extend_from_slice(chunk);
    }

    /// Writes the end of a body.
    pub fn write_end(&mut self)
        ensures
            final(self)@ == old(self)@ + body_end(),
    {
        push_u64_le(&mut self.writer, 0);
    }

    /// Writes a response: its head, its chunks in their order, and the end.
    pub fn write_res(&mut self, meta_json: &[u8], body: &Vec<Vec<u8>>)
        ensures
            final(self)@ == old(self)@ + response_frames(meta_json@, chunks_view(body@)),
    {
        self.write_head(meta_json);
        let ghost chunks = chunks_view(body@);
        let ghost start = self@;
        let mut i: usize = 0;
        while i < body.len()
            invariant
                i <= body@.len(),
                chunks == chunks_view(body@),
                self@ == start + chunk_frames(chunks.take(i as int)),
            decreases body@.len() - i,
        {
            self.write_chunk(body[i].as_slice());
            proof {
                assert(chunks.take(i as int + 1).drop_last() =~= chunks.take(i as int));
            }
            i += 1;
        }
        proof {
            assert(chunks.take(i as int) =~= chunks);
        }
        self.write_end();
    }

    /// Writes the opcode of a `Submit` frame; the response follows.
    pub fn begin_submit(&mut self)
        ensures
            final(self)@ == old(self)@ + seq![0u8],
    {
        self.writer.push(ServerRequest::Submit.code());
    }

    /// Writes the opcode of an `AnswerFetch` frame and the mark of
    /// success; the response follows.
    pub fn begin_answer_fetch(&mut self)
        ensures
            final(self)@ == old(self)@ + seq![1u8, 0u8],
    {
        self.writer.push(ServerRequest::AnswerFetch.code());
        self.writer.push(0u8);
    }

    /// Writes a `Submit` frame: a response for the scraper to read.
    pub fn submit(&mut self, meta_json: &[u8], body: &Vec<Vec<u8>>)
        ensures
            final(self)@ == old(self)@ + submit_frame(meta_json@, chunks_view(body@)),
    {
        self.begin_submit();
        self.write_res(meta_json, body);
    }

    /// Writes a `CloseScript` frame.
    pub fn close_script(&mut self)
        ensures
            final(self)@ == old(self)@ + close_script_frame(),
    {
        self.writer.push(ServerRequest::CloseScript.code());
    }

    /// Writes an `AnswerFetch` frame that says why a fetch failed.
    pub fn error_fetch(&mut self, err: &str)
        ensures
            final(self)@ == old(self)@ + error_fetch_frame(err@),
    {
        self.writer.push(ServerRequest::AnswerFetch.code());
        self.writer.push(1u8);
        let message = err.as_bytes();
        push_u64_le(&mut self.writer, message.len() as u64);
        self.writer.extend_from_slice(message);
    }

    /// Writes an `AnswerFetch` frame that carries the fetched response.
    pub fn answer_fetch(&mut self, meta_json: &[u8], body: &Vec<Vec<u8>>)
        ensures
            final(self)@ == old(self)@ + answer_fetch_frame(meta_json@, chunks_view(body@)),
    {
        self.begin_answer_fetch();
        self.write_res(meta_json, body);
    }
}

/// The bytes of a list of chunks.
pub open spec fn chunks_view(chunks: Seq<Vec<u8>>) -> Seq<Seq<u8>> {
    Seq::new(chunks.len(), |i: int| chunks[i]@)
}

/// What the front of the bytes from a scraper holds.
pub ghost enum FrameView {
    /// A whole frame of that many bytes, which holds the request.
    Whole { request: ClientRequestView, len: nat },
    /// The beginning of a frame; at least that many bytes are missing.
    Partial { missing: nat },
    /// No frame: an opcode that is none, or a URL that is not UTF-8.
    Broken,
}

/// Reads the frame at the front of the bytes from a scraper. A frame
/// begins with its opcode. `Submit` (0) and `Fetch` (1) go on with the
/// length of a URL in two bytes and the URL in UTF-8; `EndFile` (2) is
/// the opcode alone.
pub open spec fn frame_at(input: Seq<u8>) -> FrameView {
    if input.len() == 0 {
        FrameView::Partial { missing: 1 }
    } else if input[0] == 2 {
        FrameView::Whole { request: ClientRequestView::EndFile, len: 1 }
    } else if input[0] == 0 || input[0] == 1 {
        if input.len() < 3 {
            FrameView::Partial { missing: (3 - input.len()) as nat }
        } else {
            let url_len = le_value(input.subrange(1, 3));
            if input.len() < 3 + url_len {
                FrameView::Partial { missing: (3 + url_len - input.len()) as nat }
            } else {
                let url = input.subrange(3, 3 + url_len as int);
                if valid_utf8(url) {
                    FrameView::Whole {
                        request: if input[0] == 0 {
                            ClientRequestView::Submit { url: decode_utf8(url) }
                        } else {
                            ClientRequestView::Fetch { url: decode_utf8(url) }
                        },
                        len: 3 + url_len,
                    }
                } else {
                    FrameView::Broken
                }
            }
        }
    } else {
        FrameView::Broken
    }
}

/// What reading from a scraper gave.
#[derive(Debug, PartialEq, Eq)]
pub enum ReadOp {
    /// A request.
    Request(ClientRequest),
    /// Not a whole frame yet; at least that many bytes are missing.
    NeedMore(usize),
    /// The scraper sent what is no frame.
    Invalid,
}

/// Reads the frames that a scraper sends. Bytes are fed in as they
/// arrive and read out frame by frame.
#[derive(Debug)]
pub struct ClientReader {
    reader: Vec<u8>,
}

impl View for ClientReader {
    type V = Seq<u8>;

    closed spec fn view(&self) -> Seq<u8> {
        self.reader@
    }
}

impl ClientReader {
    /// A reader that holds no bytes.
    pub fn new() -> (r: ClientReader)
        ensures
            r@ == Seq::<u8>::empty(),
    {
        ClientReader { reader: Vec::new() }
    }

    /// Takes in bytes that arrived from the scraper.
    pub fn feed(&mut self, bytes: &[u8])
        ensures
            final(self)@ == old(self)@ + bytes@,
    {
        self.reader.extend_from_slice(bytes);
    }

    /// Reads the next frame. A whole frame is taken off the front and its
    /// request handed back. Where the frame is not whole yet, or is no
    /// frame, nothing is taken off.
    pub fn read_op(&mut self) -> (r: ReadOp)
        ensures
            match frame_at(old(self)@) {
                FrameView::Whole { request, len } => r matches ReadOp::Request(got) && got@
                    == request && final(self)@ == old(self)@.skip(len as int),
                FrameView::Partial { missing } => r == ReadOp::NeedMore(missing as usize) && missing
                    <= usize::MAX && final(self)@ == old(self)@,
                FrameView::Broken => r == ReadOp::Invalid && final(self)@ == old(self)@,
            },
    {
        let n = self.reader.len();
        if n == 0 {
            return ReadOp::NeedMore(1);
        }
        let opcode = self.reader[0];
        if opcode == 2 {
            let rest = self.reader.split_off(1);
            self.reader = rest;
            return ReadOp::Request(ClientRequest::EndFile);
        }
        if opcode != 0 && opcode != 1 {
            return ReadOp::Invalid;
        }
        if n < 3 {
            return ReadOp::NeedMore(3 - n);
        }
        let low = self.reader[1];
        let high = self.reader[2];
        let url_len: usize = low as usize + 256 * (high as usize);
        proof {
            reveal_with_fuel(le_value, 3);
            let two = self.reader@.subrange(1, 3);
        }
        if n - 3 < url_len {
            return ReadOp::NeedMore(url_len - (n - 3));
        }
        let url_bytes = copy_range(&self.reader, 3, 3 + url_len);
        match string_from_utf8(url_bytes) {
            None => ReadOp::Invalid,
            Some(url) => {
                let rest = self.reader.split_off(3 + url_len);
                self.reader = rest;
                if opcode == 0 {
                    ReadOp::Request(ClientRequest::Submit { url })
                } else {
                    ReadOp::Request(ClientRequest::Fetch { url })
                }
            },
        }
    }
}

/// A copy of the bytes `v[from..to]`.
pub fn copy_range(v: &Vec<u8>, from: usize, to: usize) -> (r: Vec<u8>)
    requires
        from <= to <= v@.len(),
    ensures
        r@ == v@.subrange(from as int, to as int),
{
    let mut out: Vec<u8> = Vec::new();
    let mut i: usize = from;
    while i < to
        invariant
            from <= i <= to <= v@.len(),
            out@ == v@.subrange(from as int, i as int),
        decreases to - i,
    {
        out.push(v[i]);
        i += 1;
    }
    out
}

} // verus!

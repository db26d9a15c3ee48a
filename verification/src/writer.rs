//! Line-oriented record writing and the HTTP block of a WARC record.

use vstd::prelude::*;
use vstd::string::*;
use crate::model::{
    headers_view, version_text, HeaderView, HttpVersion, ResponseMetadata, ResponseMetadataView,
};
use crate::text::{decimal, format_decimal, opt_text, push_text, utf8};

verus! {

/// The reason phrase that `http` knows for a status code, where it knows one.
pub uninterp spec fn canonical_reason(status: u16) -> Option<Seq<char>>;

/// Calls `http::StatusCode::from_u16` and `canonical_reason`. The result
/// is named [`canonical_reason`].
#[verifier::external_body]
fn canonical_reason_outside(status: u16) -> (r: Option<String>)
    ensures
        opt_text(r) == canonical_reason(status),
{
    http::StatusCode::from_u16(status).ok()?.canonical_reason().map(str::to_owned)
}

/// Carriage return and line feed.
pub open spec fn crlf() -> Seq<u8> {
    seq![13u8, 10u8]
}

/// A line: the bytes and a line end.
pub open spec fn line_bytes(line: Seq<u8>) -> Seq<u8> {
    line + crlf()
}

/// A header line: name, colon, space, value and a line end.
pub open spec fn header_bytes(name: Seq<u8>, value: Seq<u8>) -> Seq<u8> {
    name + seq![58u8, 32u8] + value + crlf()
}

/// The reason phrase of a status line: the canonical one, or a stand-in.
pub open spec fn reason_text(status: u16) -> Seq<char> {
    match canonical_reason(status) {
        Some(r) => r,
        None => "<unknown status code>"@,
    }
}

/// A status line without its line end: version, code and reason phrase,
/// with single spaces between them.
pub open spec fn status_line(version: HttpVersion, status: u16) -> Seq<u8> {
    utf8(version_text(version)) + seq![32u8] + utf8(decimal(status as nat)) + seq![32u8] + utf8(
        reason_text(status),
    )
}

/// The header lines of a response, in order.
pub open spec fn header_block(headers: Seq<HeaderView>) -> Seq<u8>
    decreases headers.len(),
{
    if headers.len() == 0 {
        Seq::empty()
    } else {
        header_block(headers.drop_last()) + header_bytes(
            utf8(headers.last().name),
            headers.last().value,
        )
    }
}

/// The HTTP block of a response: status line, header lines, an empty line,
/// and the body.
pub open spec fn http_block(meta: ResponseMetadataView, body: Seq<u8>) -> Seq<u8> {
    line_bytes(status_line(meta.version, meta.status)) + header_block(meta.headers) + crlf() + body
}

/// Something that bytes are written to, line by line.
pub trait RecordWriter {
    /// Everything written so far.
    spec fn written(&self) -> Seq<u8>;

    /// Appends `bytes`.
    fn write_all(&mut self, bytes: &[u8])
        ensures
            final(self).written() == old(self).written() + bytes@,
    ;

    /// How many bytes have been written so far.
    fn stream_position(&self) -> (r: u64)
        ensures
            r == self.written().len(),
    ;

    /// Ends a line with carriage return and line feed.
    fn line_end(&mut self)
        ensures
            final(self).written() == old(self).written() + crlf(),
    {
        let end: [u8; 2] = [13u8, 10u8];
        self.write_all(end.as_slice());
    }

    /// Writes a line and its end.
    fn line(&mut self, line: &[u8])
        ensures
            final(self).written() == old(self).written() + line_bytes(line@),
    {
        self.write_all(line);
        self.line_end();
    }

    /// Writes a header: name, colon, space, value, line end.
    fn header(&mut self, name: &[u8], value: &[u8])
        ensures
            final(self).written() == old(self).written() + header_bytes(name@, value@),
    {
        self.write_all(name);
        let sep: [u8; 2] = [58u8, 32u8];
        self.write_all(sep.as_slice());
        self.write_all(value);
        self.line_end();
    }
}

impl RecordWriter for Vec<u8> {
    open spec fn written(&self) -> Seq<u8> {
        self@
    }

    fn write_all(&mut self, bytes: &[u8]) {
        self.extend_from_slice(bytes);
    }

    fn stream_position(&self) -> (r: u64) {
        self.len() as u64
    }
}

/// The status line of a response, without its line end.
pub fn render_status_line(version: HttpVersion, status: u16) -> (r: Vec<u8>)
    ensures
        r@ == status_line(version, status),
{
    let mut out: Vec<u8> = Vec::new();
    push_text(&mut out, version.as_str());
    out.push(32u8);
    push_text(&mut out, format_decimal(status as u64).as_str());
    out.push(32u8);
    match canonical_reason_outside(status) {
        Some(reason) => push_text(&mut out, reason.as_str()),
        None => push_text(&mut out, "<unknown status code>"),
    }
    out
}

/// Writes HTTP responses into a [`RecordWriter`].
pub trait HttpResponseWriter: RecordWriter {
    /// Writes the status line, the header lines in their order, an empty
    /// line and the body. Returns how many bytes stand in the writer then.
    fn write_http_response(&mut self, meta: &ResponseMetadata, body: &[u8]) -> (end: u64)
        ensures
            final(self).written() == old(self).written() + http_block(meta@, body@),
            end == final(self).written().len(),
    {
        let status = render_status_line(meta.version, meta.status);
        self.line(status.as_slice());
        let ghost headers = headers_view(meta.headers@);
        let ghost start = old(self).written() + line_bytes(status_line(meta.version, meta.status));
        let mut i: usize = 0;
        while i < meta.headers.len()
            invariant
                i <= meta.headers@.len(),
                headers == headers_view(meta.headers@),
                self.written() == start + header_block(headers.take(i as int)),
            decreases meta.headers@.len() - i,
        {
            self.header(meta.headers[i].name.as_str().as_bytes(), meta.headers[i].value.as_slice());
            proof {
                assert(headers.take(i as int + 1).drop_last() =~= headers.take(i as int));
            }
            i += 1;
        }
        proof {
            assert(headers.take(i as int) =~= headers);
        }
        self.line_end();
        self.write_all(body);
        self.stream_position()
    }
}

impl HttpResponseWriter for Vec<u8> {

}

} // verus!

//! Hashing and compression, done by `sha2` and `flate2`.

use vstd::prelude::*;

verus! {

/// The SHA-256 digest of a byte string, as `sha2` computes it.
pub uninterp spec fn sha256(data: Seq<u8>) -> Seq<u8>;

/// The gzip member that `flate2` writes for a byte string at a compression
/// level, or nothing where it fails.
pub uninterp spec fn gzip_member(level: u32, data: Seq<u8>) -> Option<Seq<u8>>;

/// The bytes of an optional byte vector.
pub open spec fn opt_bytes(v: Option<Vec<u8>>) -> Option<Seq<u8>> {
    match v {
        Some(b) => Some(b@),
        None => None,
    }
}

/// Calls `sha2::Sha256::digest` and turns the result into an array. The
/// result is named [`sha256`].
#[verifier::external_body]
pub(crate) fn sha256_outside(data: &[u8]) -> (r: [u8; 32])
    ensures
        r@ == sha256(data@),
{
    <sha2::Sha256 as sha2::Digest>::digest(data).into()
}

/// Calls `flate2::write::GzEncoder::new` with an empty vector and
/// `flate2::Compression::new`, then `write_all` and `finish`. The result is
/// named [`gzip_member`]. Levels above nine are left out: the encoder is
/// not made for them.
#[verifier::external_body]
pub(crate) fn gzip_outside(data: &[u8], level: u32) -> (r: Option<Vec<u8>>)
    requires
        level <= 9,
    ensures
        opt_bytes(r) == gzip_member(level, data@),
{
    let mut encoder = flate2::write::GzEncoder::new(Vec::new(), flate2::Compression::new(level));
    std::io::Write::write_all(&mut encoder, data).ok()?;
    encoder.finish().ok()
}

} // verus!

//! Byte blobs: their SHA-256 in hex, and the answer to a fetch that carries
//! an ETag.

use vstd::prelude::*;
use sha2::Digest;
use crate::text::trimmed;

verus! {

/// The SHA-256 digest of `data` (FIPS 180-4), as the `sha2` crate computes it.
pub uninterp spec fn sha256_digest(data: Seq<u8>) -> Seq<u8>;

/// `sha2::Sha256::digest`: the digest of `data`. Its value is only named
/// here; that it is 32 bytes long is the one fact stated of it.
#[verifier::external_body]
fn sha256(data: &[u8]) -> (res: Vec<u8>)
    ensures
        res@ == sha256_digest(data@),
        res@.len() == 32,
{
    sha2::Sha256::digest(data).to_vec()
}

/// The lower-case hexadecimal digit for `d` (`0 <= d < 16`).
pub open spec fn hex_digit(d: nat) -> char {
    if d < 10 {
        (48 + d) as char
    } else {
        (87 + d) as char
    }
}

/// Two lower-case hexadecimal digits per byte, high nibble first.
pub open spec fn hex_lower(data: Seq<u8>) -> Seq<char>
    decreases data.len(),
{
    if data.len() == 0 {
        Seq::empty()
    } else {
        seq![hex_digit((data[0] / 16) as nat), hex_digit((data[0] % 16) as nat)] + hex_lower(
            data.drop_first(),
        )
    }
}

pub proof fn lemma_hex_lower_len(data: Seq<u8>)
    ensures
        hex_lower(data).len() == 2 * data.len(),
    decreases data.len(),
{
    if data.len() > 0 {
        lemma_hex_lower_len(data.drop_first());
    }
}

/// `hex::encode`: each byte as two lower-case hexadecimal digits, high
/// nibble first, as the crate's source writes them from the table
/// `0123456789abcdef`.
#[verifier::external_body]
fn hex_encode(data: &[u8]) -> (res: String)
    ensures
        res@ == hex_lower(data@),
{
    hex::encode(data)
}

/// The SHA-256 of `data` as 64 lower-case hexadecimal digits.
pub fn sha256_hex(data: &[u8]) -> (res: String)
    ensures
        res@ == hex_lower(sha256_digest(data@)),
        res@.len() == 64,
{
    let digest = sha256(data);
    proof {
        lemma_hex_lower_len(digest@);
    }
    hex_encode(digest.as_slice())
}

/// The entity tag of a blob: its SHA-256 in double quotes.
pub open spec fn etag_of(sha256: Seq<char>) -> Seq<char> {
    "\""@ + sha256 + "\""@
}

pub fn etag(sha256: &str) -> (res: String)
    ensures
        res@ == etag_of(sha256@),
{
    let mut s = String::from_str("\"");
    s.append(sha256);
    s.append("\"");
    s
}

/// The answer to a fetch of a blob. `body` is `None` for `304 Not
/// Modified`; otherwise it is the content, sent as
/// `application/octet-stream`. The ETag header goes with both.
pub struct BlobResponse {
    pub status: u16,
    pub etag: String,
    pub body: Option<Vec<u8>>,
}

pub const OK: u16 = 200;
pub const NOT_MODIFIED: u16 = 304;

/// Answers a fetch of `content`, whose SHA-256 is `sha256`, from a client
/// that sent `if_none_match` (the `If-None-Match` header, when it is
/// present and readable as text). When the header, trimmed, is the blob's
/// ETag the client's copy is current: `304` without a body. Otherwise
/// `200` with the content.
pub fn build_blob_response(if_none_match: Option<&str>, content: Vec<u8>, sha256: &str) -> (res:
    BlobResponse)
    ensures
        res.etag@ == etag_of(sha256@),
        (match if_none_match {
            Some(v) => trimmed(v@) == etag_of(sha256@),
            None => false,
        }) ==> res.status == 304 && res.body is None,
        !(match if_none_match {
            Some(v) => trimmed(v@) == etag_of(sha256@),
            None => false,
        }) ==> res.status == 200 && res.body == Some(content),
{
    let tag = etag(sha256);
    let matches = match if_none_match {
        Some(v) => crate::text::str_eq(crate::text::trim(v), tag.as_str()),
        None => false,
    };
    if matches {
        BlobResponse { status: NOT_MODIFIED, etag: tag, body: None }
    } else {
        BlobResponse { status: OK, etag: tag, body: Some(content) }
    }
}

} // verus!

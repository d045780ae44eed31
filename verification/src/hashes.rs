//! The hash layer: MD5, SHA-256 and SHA-512 digests of UTF-8 text,
//! rendered as lowercase hex. The digests are outside crates behind trusted
//! wrappers; each is a pure function of its input, so repeated calls on the
//! same text are pinned to the same result.

use vstd::prelude::*;
use vstd::string::StringSliceAdditionalSpecFns;

use sha2::Digest;

use crate::hexcode::{hex_encode_bytes, lemma_hex_encode_len, spec_hex_encode};

verus! {

/// The 16-byte MD5 digest of a byte sequence.
pub uninterp spec fn md5_of(b: Seq<u8>) -> Seq<u8>;

/// The 32-byte SHA-256 digest of a byte sequence.
pub uninterp spec fn sha256_of(b: Seq<u8>) -> Seq<u8>;

/// The 64-byte SHA-512 digest of a byte sequence.
pub uninterp spec fn sha512_of(b: Seq<u8>) -> Seq<u8>;

/// Relies on `md5::compute`: a 16-byte digest, a function of the bytes
/// alone.
#[verifier::external_body]
fn md5_digest_bytes(b: &[u8]) -> (r: Vec<u8>)
    ensures
        r@ == md5_of(b@),
        r@.len() == 16,
{
    md5::compute(b).0.to_vec()
}

/// Relies on `sha2::Sha256`: a 32-byte digest, a function of the bytes
/// alone.
#[verifier::external_body]
pub(crate) fn sha256_digest_bytes(b: &[u8]) -> (r: Vec<u8>)
    ensures
        r@ == sha256_of(b@),
        r@.len() == 32,
{
    let mut hasher = sha2::Sha256::new();
    hasher.update(b);
    hasher.finalize().to_vec()
}

/// Relies on `sha2::Sha512`: a 64-byte digest, a function of the bytes
/// alone.
#[verifier::external_body]
fn sha512_digest_bytes(b: &[u8]) -> (r: Vec<u8>)
    ensures
        r@ == sha512_of(b@),
        r@.len() == 64,
{
    let mut hasher = sha2::Sha512::new();
    hasher.update(b);
    hasher.finalize().to_vec()
}

/// The MD5 digest of a text's UTF-8 bytes, as 32 hex characters.
pub fn md5_hash(text: &str) -> (r: String)
    ensures
        r@ == spec_hex_encode(md5_of(text.spec_bytes())),
        r@.len() == 32,
{
    let digest = md5_digest_bytes(text.as_bytes());
    proof {
        lemma_hex_encode_len(md5_of(text.spec_bytes()));
    }
    hex_encode_bytes(digest.as_slice())
}

/// The SHA-256 digest of a text's UTF-8 bytes, as 64 hex characters.
pub fn sha256_hash(text: &str) -> (r: String)
    ensures
        r@ == spec_hex_encode(sha256_of(text.spec_bytes())),
        r@.len() == 64,
{
    let digest = sha256_digest_bytes(text.as_bytes());
    proof {
        lemma_hex_encode_len(sha256_of(text.spec_bytes()));
    }
    hex_encode_bytes(digest.as_slice())
}

/// The SHA-512 digest of a text's UTF-8 bytes, as 128 hex characters.
pub fn sha512_hash(text: &str) -> (r: String)
    ensures
        r@ == spec_hex_encode(sha512_of(text.spec_bytes())),
        r@.len() == 128,
{
    let digest = sha512_digest_bytes(text.as_bytes());
    proof {
        lemma_hex_encode_len(sha512_of(text.spec_bytes()));
    }
    hex_encode_bytes(digest.as_slice())
}

} // verus!

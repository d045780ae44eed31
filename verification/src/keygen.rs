//! Random key material: fresh AES keys, IVs, and raw keys of a caller's
//! chosen length, each rendered as lowercase hex. The randomness comes from
//! the `rand` crate; everything around it — the collection loop and the hex
//! rendering — is verified.

use vstd::prelude::*;

use crate::hexcode::{hex_encode_bytes, lemma_hex_encode_len, spec_hex_encode};

verus! {

pub assume_specification<T>[ rand::random::<T> ]() -> (r: T)
    where
        rand::distributions::Standard: rand::distributions::Distribution<T>,
;

/// A fresh random key of `length` bytes, hex-encoded: two characters per
/// byte.
pub fn generate_random_key(length: usize) -> (r: String)
    requires
        length * 2 <= usize::MAX,
    ensures
        r@.len() == 2 * length,
        exists|b: Seq<u8>| b.len() == length && r@ == spec_hex_encode(b),
{
    let mut key: Vec<u8> = Vec::new();
    let mut i: usize = 0;
    while i < length
        invariant
            i <= length,
            key@.len() == i,
        decreases length - i,
    {
        let byte: u8 = rand::random();
        key.push(byte);
        i = i + 1;
    }
    let r = hex_encode_bytes(key.as_slice());
    proof {
        lemma_hex_encode_len(key@);
        assert(key@.len() == length && r@ == spec_hex_encode(key@));
    }
    r
}

/// A fresh random 32-byte AES-256 key, as 64 hex characters.
pub fn generate_aes_key() -> (r: String)
    ensures
        r@.len() == 64,
        exists|b: Seq<u8>| b.len() == 32 && r@ == spec_hex_encode(b),
{
    generate_random_key(32)
}

/// A fresh random 16-byte CBC initialization vector, as 32 hex characters.
pub fn generate_aes_iv() -> (r: String)
    ensures
        r@.len() == 32,
        exists|b: Seq<u8>| b.len() == 16 && r@ == spec_hex_encode(b),
{
    generate_random_key(16)
}

} // verus!

//! The symmetric cipher engine: AES-256 in CBC mode with PKCS#7 padding.
//! The block cipher itself is an outside crate behind trusted wrappers; the
//! parameter validation, the hex and Base64 framing, and the round-trip
//! guarantee are verified here.

use vstd::prelude::*;
use vstd::string::StringSliceAdditionalSpecFns;
use vstd::utf8::{decode_utf8, valid_utf8};

use aes::cipher::block_padding::Pkcs7;
use aes::cipher::{BlockDecryptMut, BlockEncryptMut, KeyIvInit};

use crate::codec::{b64_decode_of, b64_of, base64_decode_str, base64_encode_bytes};
use crate::errors::CryptoError;
use crate::hexcode::spec_hex_decode;
use crate::strutil::bytes_to_string;

verus! {

/// The AES-256-CBC/PKCS#7 ciphertext of a message under a 32-byte key and a
/// 16-byte IV.
pub uninterp spec fn aes_cbc_enc(key: Seq<u8>, iv: Seq<u8>, ptext: Seq<u8>) -> Seq<u8>;

/// What AES-256-CBC/PKCS#7 decryption yields under a 32-byte key and a
/// 16-byte IV, if the input is a whole number of blocks with valid padding.
pub uninterp spec fn aes_cbc_dec(key: Seq<u8>, iv: Seq<u8>, ct: Seq<u8>) -> Option<Seq<u8>>;

/// Relies on `cbc::Encryptor::<aes::Aes256>` with `Pkcs7` padding: a
/// deterministic function of key, IV and message, inverted by the matching
/// decryptor; PKCS#7 adds 1 to 16 padding bytes, so the ciphertext is the
/// message length rounded up to the next whole block.
#[verifier::external_body]
pub(crate) fn aes256_cbc_encrypt_bytes(data: &[u8], key: &[u8], iv: &[u8]) -> (r: Vec<u8>)
    requires
        key@.len() == 32,
        iv@.len() == 16,
        data@.len() + 16 <= usize::MAX,
    ensures
        r@ == aes_cbc_enc(key@, iv@, data@),
        aes_cbc_dec(key@, iv@, r@) == Some(data@),
        r@.len() == (data@.len() / 16 + 1) * 16,
{
    let key_arr: [u8; 32] = key.try_into().unwrap();
    let iv_arr: [u8; 16] = iv.try_into().unwrap();
    let cipher = cbc::Encryptor::<aes::Aes256>::new(&key_arr.into(), &iv_arr.into());
    let mut buffer = vec![0u8; data.len() + 16];
    let n = cipher.encrypt_padded_b2b_mut::<Pkcs7>(data, &mut buffer).unwrap().len();
    buffer.truncate(n);
    buffer
}

/// Relies on `cbc::Decryptor::<aes::Aes256>` with `Pkcs7` padding: a
/// deterministic function of key, IV and ciphertext that fails exactly when
/// the input is not a whole number of blocks or the padding is invalid.
#[verifier::external_body]
pub(crate) fn aes256_cbc_decrypt_bytes(data: &[u8], key: &[u8], iv: &[u8]) -> (r: Option<Vec<u8>>)
    requires
        key@.len() == 32,
        iv@.len() == 16,
    ensures
        match aes_cbc_dec(key@, iv@, data@) {
            Some(p) => r is Some && r->0@ == p,
            None => r is None,
        },
{
    let key_arr: [u8; 32] = key.try_into().unwrap();
    let iv_arr: [u8; 16] = iv.try_into().unwrap();
    let cipher = cbc::Decryptor::<aes::Aes256>::new(&key_arr.into(), &iv_arr.into());
    let mut buffer = vec![0u8; data.len()];
    match cipher.decrypt_padded_b2b_mut::<Pkcs7>(data, &mut buffer) {
        Ok(p) => Some(p.to_vec()),
        Err(_) => None,
    }
}

/// The shared parameter validation: both hex strings must decode, the key
/// to exactly 32 bytes and the IV to exactly 16.
pub open spec fn aes_params_checked(key: Seq<char>, iv: Seq<char>) -> Result<
    (Seq<u8>, Seq<u8>),
    CryptoError,
> {
    match spec_hex_decode(key) {
        None => Err(CryptoError::EncodingError),
        Some(k) => match spec_hex_decode(iv) {
            None => Err(CryptoError::EncodingError),
            Some(v) => {
                if k.len() != 32 {
                    Err(CryptoError::InvalidKeyLength { got: k.len() as usize })
                } else if v.len() != 16 {
                    Err(CryptoError::InvalidIvLength { got: v.len() as usize })
                } else {
                    Ok((k, v))
                }
            },
        },
    }
}

/// What `aes_encrypt` returns, as a function of the message bytes and the
/// two hex parameters.
pub open spec fn aes_encrypt_spec(ptext: Seq<u8>, key: Seq<char>, iv: Seq<char>) -> Result<
    Seq<char>,
    CryptoError,
> {
    match aes_params_checked(key, iv) {
        Err(e) => Err(e),
        Ok(kv) => Ok(b64_of(aes_cbc_enc(kv.0, kv.1, ptext))),
    }
}

/// What `aes_decrypt` returns, as a function of the Base64 ciphertext and
/// the two hex parameters.
pub open spec fn aes_decrypt_spec(ct: Seq<char>, key: Seq<char>, iv: Seq<char>) -> Result<
    Seq<char>,
    CryptoError,
> {
    match b64_decode_of(ct) {
        None => Err(CryptoError::EncodingError),
        Some(data) => match aes_params_checked(key, iv) {
            Err(e) => Err(e),
            Ok(kv) => match aes_cbc_dec(kv.0, kv.1, data) {
                None => Err(CryptoError::DecryptionError),
                Some(p) => {
                    if valid_utf8(p) {
                        Ok(decode_utf8(p))
                    } else {
                        Err(CryptoError::TextDecodingError)
                    }
                },
            },
        },
    }
}

/// Encrypts a text with AES-256-CBC under a hex key and hex IV, returning
/// Base64. The second `ensures` clause is the round trip: the returned
/// ciphertext always decrypts back to the original text under the same
/// parameters.
pub fn aes_encrypt(text: &str, key: &str, iv: &str) -> (r: Result<String, CryptoError>)
    requires
        text.spec_bytes().len() + 16 <= usize::MAX,
    ensures
        crate::errors::res_view(r) == aes_encrypt_spec(text.spec_bytes(), key@, iv@),
        r matches Ok(ct) ==> aes_decrypt_spec(ct@, key@, iv@) == Ok::<Seq<char>, CryptoError>(
            text@,
        ),
        r matches Ok(ct) ==> (b64_decode_of(ct@) matches Some(c) && c.len() == (
        text.spec_bytes().len() / 16 + 1) * 16),
{
    let key_bytes = match crate::hexcode::hex_decode_bytes(key) {
        Some(b) => b,
        None => { return Err(CryptoError::EncodingError) },
    };
    let iv_bytes = match crate::hexcode::hex_decode_bytes(iv) {
        Some(b) => b,
        None => { return Err(CryptoError::EncodingError) },
    };
    if key_bytes.len() != 32 {
        return Err(CryptoError::InvalidKeyLength { got: key_bytes.len() });
    }
    if iv_bytes.len() != 16 {
        return Err(CryptoError::InvalidIvLength { got: iv_bytes.len() });
    }
    let data = text.as_bytes();
    let ct = aes256_cbc_encrypt_bytes(data, key_bytes.as_slice(), iv_bytes.as_slice());
    let out = base64_encode_bytes(ct.as_slice());
    proof {
        vstd::utf8::encode_utf8_valid_utf8(text@);
        vstd::utf8::encode_utf8_decode_utf8(text@);
    }
    Ok(out)
}

/// Decrypts a Base64 AES-256-CBC ciphertext under a hex key and hex IV,
/// returning the plaintext text.
pub fn aes_decrypt(encrypted_text: &str, key: &str, iv: &str) -> (r: Result<String, CryptoError>)
    ensures
        crate::errors::res_view(r) == aes_decrypt_spec(encrypted_text@, key@, iv@),
{
    let data = match base64_decode_str(encrypted_text) {
        Some(d) => d,
        None => { return Err(CryptoError::EncodingError) },
    };
    let key_bytes = match crate::hexcode::hex_decode_bytes(key) {
        Some(b) => b,
        None => { return Err(CryptoError::EncodingError) },
    };
    let iv_bytes = match crate::hexcode::hex_decode_bytes(iv) {
        Some(b) => b,
        None => { return Err(CryptoError::EncodingError) },
    };
    if key_bytes.len() != 32 {
        return Err(CryptoError::InvalidKeyLength { got: key_bytes.len() });
    }
    if iv_bytes.len() != 16 {
        return Err(CryptoError::InvalidIvLength { got: iv_bytes.len() });
    }
    match aes256_cbc_decrypt_bytes(data.as_slice(), key_bytes.as_slice(), iv_bytes.as_slice()) {
        None => Err(CryptoError::DecryptionError),
        Some(p) => match bytes_to_string(p) {
            Some(t) => Ok(t),
            None => Err(CryptoError::TextDecodingError),
        },
    }
}

} // verus!


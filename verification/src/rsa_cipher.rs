//! The RSA engine: PKCS#1 v1.5 encryption and decryption, and PEM key-pair
//! generation. The RSA arithmetic and the PEM parsing are the `rsa` crate
//! behind trusted wrappers over plain values. Parse success, the modulus
//! size, and the (rng-free, deterministic) decryption result are functions
//! of the texts alone, so each is named and the contracts are exact; only
//! the ciphertext bytes themselves are randomized.

use vstd::prelude::*;
use vstd::string::StringSliceAdditionalSpecFns;
use vstd::utf8::{decode_utf8, valid_utf8};

use rsa::pkcs1::{DecodeRsaPublicKey, EncodeRsaPublicKey, LineEnding};
use rsa::pkcs8::{DecodePrivateKey, EncodePrivateKey};

use crate::codec::{b64_decode_of, b64_of, base64_decode_str, base64_encode_bytes};
use crate::errors::{res_view, CryptoError};
use crate::strutil::bytes_to_string;

verus! {

/// Whether a text is a PKCS#1 PEM that parses as an RSA public key (the
/// `rsa` crate admits moduli up to 4096 bits).
pub uninterp spec fn rsa_pub_pem_ok(pem: Seq<char>) -> bool;

/// Whether a text is a PKCS#8 PEM that parses as an RSA private key.
pub uninterp spec fn rsa_priv_pem_ok(pem: Seq<char>) -> bool;

/// The byte length of the modulus of the RSA public key a PEM parses to.
pub uninterp spec fn rsa_modulus_len(pem: Seq<char>) -> nat;

/// What PKCS#1 v1.5 decryption under the private key a PEM parses to
/// yields on a ciphertext, if the recovered block is well-formed.
pub uninterp spec fn rsa_decrypted_of(pem: Seq<char>, ct: Seq<u8>) -> Option<Seq<u8>>;

/// Relies on `rsa::RsaPublicKey::from_pkcs1_pem`: success is a function of
/// the text alone.
#[verifier::external_body]
fn rsa_public_pem_parses(pem: &str) -> (r: bool)
    ensures
        r == rsa_pub_pem_ok(pem@),
{
    rsa::RsaPublicKey::from_pkcs1_pem(pem).is_ok()
}

/// Relies on `rsa::RsaPrivateKey::from_pkcs8_pem`: success is a function of
/// the text alone.
#[verifier::external_body]
fn rsa_private_pem_parses(pem: &str) -> (r: bool)
    ensures
        r == rsa_priv_pem_ok(pem@),
{
    rsa::RsaPrivateKey::from_pkcs8_pem(pem).is_ok()
}

/// Relies on `rsa::RsaPublicKey::encrypt` with `Pkcs1v15Encrypt` and
/// `OsRng` (the key re-parsed with `from_pkcs1_pem`, which the `requires`
/// keeps from failing): encryption under a parsed key fails exactly when
/// the message plus the 11 padding bytes exceeds the modulus length, and
/// the ciphertext is always exactly one modulus in length; its bytes are
/// randomized, so nothing more is promised of them.
#[verifier::external_body]
fn rsa_encrypt_with_pem(pem: &str, data: &[u8]) -> (r: Option<Vec<u8>>)
    requires
        rsa_pub_pem_ok(pem@),
    ensures
        r is Some <==> data@.len() + 11 <= rsa_modulus_len(pem@),
        r matches Some(ct) ==> ct@.len() == rsa_modulus_len(pem@),
{
    let public_key = match rsa::RsaPublicKey::from_pkcs1_pem(pem) {
        Ok(k) => k,
        Err(_) => return None,
    };
    let mut rng = rand::rngs::OsRng;
    public_key.encrypt(&mut rng, rsa::Pkcs1v15Encrypt, data).ok()
}

/// Relies on `rsa::RsaPrivateKey::decrypt` with `Pkcs1v15Encrypt` (the key
/// re-parsed with `from_pkcs8_pem`, which the `requires` keeps from
/// failing): called without an rng there is no blinding, so the decryption
/// is a deterministic function of the key and the ciphertext, and it fails
/// exactly when the recovered PKCS#1 v1.5 block is invalid.
#[verifier::external_body]
fn rsa_decrypt_with_pem(pem: &str, data: &[u8]) -> (r: Option<Vec<u8>>)
    requires
        rsa_priv_pem_ok(pem@),
    ensures
        match rsa_decrypted_of(pem@, data@) {
            Some(p) => r is Some && r->0@ == p,
            None => r is None,
        },
{
    let private_key = match rsa::RsaPrivateKey::from_pkcs8_pem(pem) {
        Ok(k) => k,
        Err(_) => return None,
    };
    private_key.decrypt(rsa::Pkcs1v15Encrypt, data).ok()
}

/// Relies on `rsa::RsaPrivateKey::new` with `OsRng` and the PKCS#8 / PKCS#1
/// PEM encoders: a fresh two-prime key pair whose modulus has exactly
/// `bits` bits, as (public, private) PEM text. The crate's decoders read
/// back what its encoders write, so the private PEM parses as PKCS#8
/// again, and the public PEM as PKCS#1 whenever `bits` is within the
/// decoder's 4096-bit maximum. The keys are random, so nothing more is
/// promised.
#[verifier::external_body]
fn generate_rsa_keypair_pems(bits: usize) -> (r: Option<(String, String)>)
    ensures
        r matches Some(pems) ==> rsa_priv_pem_ok(pems.1@) && (bits <= 4096 ==> rsa_pub_pem_ok(
            pems.0@,
        )),
{
    let mut rng = rand::rngs::OsRng;
    let private_key = rsa::RsaPrivateKey::new(&mut rng, bits).ok()?;
    let public_key = rsa::RsaPublicKey::from(&private_key);
    let private_pem = private_key.to_pkcs8_pem(LineEnding::LF).ok()?;
    let public_pem = public_key.to_pkcs1_pem(LineEnding::LF).ok()?;
    Some((public_pem, private_pem.to_string()))
}

/// An RSA key pair: a PKCS#1 public key and a PKCS#8 private key, each as
/// PEM text.
#[derive(Debug)]
pub struct RsaKeyPair {
    pub public_key: String,
    pub private_key: String,
}

/// What `rsa_decrypt` returns, as a function of the Base64 ciphertext and
/// the private-key PEM.
pub open spec fn rsa_decrypt_spec(ct: Seq<char>, pem: Seq<char>) -> Result<Seq<char>, CryptoError> {
    if !rsa_priv_pem_ok(pem) {
        Err(CryptoError::KeyParseError)
    } else {
        match b64_decode_of(ct) {
            None => Err(CryptoError::EncodingError),
            Some(data) => match rsa_decrypted_of(pem, data) {
                None => Err(CryptoError::DecryptionError),
                Some(p) => {
                    if valid_utf8(p) {
                        Ok(decode_utf8(p))
                    } else {
                        Err(CryptoError::TextDecodingError)
                    }
                },
            },
        }
    }
}

/// Encrypts a text under an RSA public key (PKCS#1 v1.5 padding), returning
/// Base64. Fails with `KeyParseError` exactly when the PEM does not parse,
/// and with `EncryptionError` exactly when the message plus the 11 padding
/// bytes exceeds the modulus length; otherwise it succeeds with the Base64
/// of one modulus-sized ciphertext.
pub fn rsa_encrypt(text: &str, public_key_pem: &str) -> (r: Result<String, CryptoError>)
    ensures
        r is Ok <==> (rsa_pub_pem_ok(public_key_pem@) && text.spec_bytes().len() + 11
            <= rsa_modulus_len(public_key_pem@)),
        r == Err::<String, CryptoError>(CryptoError::KeyParseError) <==> !rsa_pub_pem_ok(
            public_key_pem@,
        ),
        rsa_pub_pem_ok(public_key_pem@) ==> (r == Err::<String, CryptoError>(
            CryptoError::EncryptionError,
        ) <==> text.spec_bytes().len() + 11 > rsa_modulus_len(public_key_pem@)),
        r matches Ok(ct) ==> exists|c: Seq<u8>|
            ct@ == b64_of(c) && b64_decode_of(ct@) == Some(c) && c.len() == rsa_modulus_len(
                public_key_pem@,
            ),
{
    if !rsa_public_pem_parses(public_key_pem) {
        return Err(CryptoError::KeyParseError);
    }
    match rsa_encrypt_with_pem(public_key_pem, text.as_bytes()) {
        None => Err(CryptoError::EncryptionError),
        Some(ct) => Ok(base64_encode_bytes(ct.as_slice())),
    }
}

/// Decrypts a Base64 RSA ciphertext under a PKCS#8 private key. Fails with
/// `KeyParseError` exactly when the PEM does not parse, with
/// `EncodingError` exactly when the ciphertext is not Base64, with
/// `DecryptionError` exactly when the PKCS#1 v1.5 block is invalid, and
/// with `TextDecodingError` exactly when the plaintext is not UTF-8.
pub fn rsa_decrypt(encrypted_text: &str, private_key_pem: &str) -> (r: Result<String, CryptoError>)
    ensures
        res_view(r) == rsa_decrypt_spec(encrypted_text@, private_key_pem@),
{
    if !rsa_private_pem_parses(private_key_pem) {
        return Err(CryptoError::KeyParseError);
    }
    let data = match base64_decode_str(encrypted_text) {
        Some(d) => d,
        None => { return Err(CryptoError::EncodingError) },
    };
    match rsa_decrypt_with_pem(private_key_pem, data.as_slice()) {
        None => Err(CryptoError::DecryptionError),
        Some(p) => match bytes_to_string(p) {
            Some(t) => Ok(t),
            None => Err(CryptoError::TextDecodingError),
        },
    }
}

/// Generates a fresh RSA key pair of the requested bit size; no minimum is
/// enforced here, deliberately. On success the private PEM parses back as
/// PKCS#8, and the public PEM as PKCS#1 for bit sizes within the parser's
/// 4096-bit maximum. Fails only if the generator or a PEM encoder fails.
pub fn generate_rsa_keypair(bits: usize) -> (r: Result<RsaKeyPair, CryptoError>)
    ensures
        r matches Err(e) ==> e == CryptoError::EncryptionError,
        r matches Ok(pair) ==> rsa_priv_pem_ok(pair.private_key@) && (bits <= 4096
            ==> rsa_pub_pem_ok(pair.public_key@)),
{
    match generate_rsa_keypair_pems(bits) {
        Some(pems) => Ok(RsaKeyPair { public_key: pems.0, private_key: pems.1 }),
        None => Err(CryptoError::EncryptionError),
    }
}

} // verus!

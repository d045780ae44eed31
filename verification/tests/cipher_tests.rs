//! Tests for the symmetric, RSA and hybrid EC engines and key generation.

use crypto_toolkit::hexcode::hex_decode_bytes;
use crypto_toolkit::hybrid::derive_key_from_shared_secret;
use crypto_toolkit::{
    aes_decrypt, aes_encrypt, ecc_decrypt, ecc_encrypt, generate_aes_iv, generate_aes_key,
    generate_ecc_keypair, generate_random_key, generate_rsa_keypair, rsa_decrypt, rsa_encrypt,
    CryptoError,
};

const KEY: &str = "000102030405060708090a0b0c0d0e0f101112131415161718191a1b1c1d1e1f";
const IV: &str = "0f0e0d0c0b0a09080706050403020100";

#[test]
fn aes_round_trip() {
    let ct = aes_encrypt("hello world", KEY, IV).unwrap();
    assert_ne!(ct, "hello world");
    // 11 bytes pad to one 16-byte block, whose Base64 is 24 characters.
    assert_eq!(ct.len(), 24);
    assert_eq!(aes_decrypt(&ct, KEY, IV).unwrap(), "hello world");
}

#[test]
fn aes_round_trip_unicode_and_empty() {
    let ct = aes_encrypt("héllo wörld ✓", KEY, IV).unwrap();
    assert_eq!(aes_decrypt(&ct, KEY, IV).unwrap(), "héllo wörld ✓");
    let ct = aes_encrypt("", KEY, IV).unwrap();
    assert_eq!(aes_decrypt(&ct, KEY, IV).unwrap(), "");
}

#[test]
fn aes_encrypt_is_deterministic() {
    assert_eq!(
        aes_encrypt("same text", KEY, IV).unwrap(),
        aes_encrypt("same text", KEY, IV).unwrap()
    );
}

#[test]
fn aes_rejects_short_key() {
    // 31 bytes of key material.
    let short_key = &KEY[..62];
    assert_eq!(
        aes_encrypt("text", short_key, IV),
        Err(CryptoError::InvalidKeyLength { got: 31 })
    );
    assert_eq!(
        aes_decrypt("AAAA", short_key, IV),
        Err(CryptoError::InvalidKeyLength { got: 31 })
    );
}

#[test]
fn aes_rejects_wrong_iv_length() {
    let short_iv = &IV[..30];
    assert_eq!(
        aes_encrypt("text", KEY, short_iv),
        Err(CryptoError::InvalidIvLength { got: 15 })
    );
    let long_iv = "0f0e0d0c0b0a0908070605040302010000";
    assert_eq!(
        aes_encrypt("text", KEY, long_iv),
        Err(CryptoError::InvalidIvLength { got: 17 })
    );
}

#[test]
fn aes_rejects_malformed_hex_and_base64() {
    assert_eq!(
        aes_encrypt("text", "nothex", IV),
        Err(CryptoError::EncodingError)
    );
    assert_eq!(
        aes_decrypt("!!notbase64!!", KEY, IV),
        Err(CryptoError::EncodingError)
    );
}

#[test]
fn aes_rejects_bad_ciphertext_length() {
    // "AAAA" is valid Base64 for 3 bytes, which is not a whole block.
    assert_eq!(aes_decrypt("AAAA", KEY, IV), Err(CryptoError::DecryptionError));
}

#[test]
fn rsa_round_trip() {
    let pair = generate_rsa_keypair(512).unwrap();
    let ct = rsa_encrypt("hello world", &pair.public_key).unwrap();
    assert_eq!(rsa_decrypt(&ct, &pair.private_key).unwrap(), "hello world");
}

#[test]
fn rsa_rejects_bad_pems() {
    assert_eq!(
        rsa_encrypt("text", "not a pem"),
        Err(CryptoError::KeyParseError)
    );
    assert_eq!(
        rsa_decrypt("AAAA", "not a pem"),
        Err(CryptoError::KeyParseError)
    );
}

#[test]
fn rsa_rejects_bad_ciphertext() {
    let pair = generate_rsa_keypair(512).unwrap();
    assert_eq!(
        rsa_decrypt("!!notbase64!!", &pair.private_key),
        Err(CryptoError::EncodingError)
    );
    assert_eq!(
        rsa_decrypt("AAAA", &pair.private_key),
        Err(CryptoError::DecryptionError)
    );
}

#[test]
fn rsa_rejects_oversized_message() {
    let pair = generate_rsa_keypair(512).unwrap();
    let long_text = "x".repeat(100);
    assert_eq!(
        rsa_encrypt(&long_text, &pair.public_key),
        Err(CryptoError::EncryptionError)
    );
}

#[test]
fn rsa_message_capacity_boundary() {
    // A 512-bit modulus is 64 bytes; PKCS#1 v1.5 leaves room for 64 - 11.
    let pair = generate_rsa_keypair(512).unwrap();
    let at_limit = "x".repeat(53);
    let ct = rsa_encrypt(&at_limit, &pair.public_key).unwrap();
    assert_eq!(rsa_decrypt(&ct, &pair.private_key).unwrap(), at_limit);
    let over_limit = "x".repeat(54);
    assert_eq!(
        rsa_encrypt(&over_limit, &pair.public_key),
        Err(CryptoError::EncryptionError)
    );
}

#[test]
fn ecc_round_trip() {
    let pair = generate_ecc_keypair().unwrap();
    let ct = ecc_encrypt("hello world", &pair.public_key).unwrap();
    assert_eq!(ct.matches('.').count(), 1);
    assert_eq!(ecc_decrypt(&ct, &pair.private_key).unwrap(), "hello world");
}

#[test]
fn ecc_round_trip_unicode() {
    let pair = generate_ecc_keypair().unwrap();
    let ct = ecc_encrypt("héllo wörld ✓", &pair.public_key).unwrap();
    assert_eq!(ecc_decrypt(&ct, &pair.private_key).unwrap(), "héllo wörld ✓");
}

#[test]
fn ecc_decrypt_rejects_wrong_part_count() {
    let pair = generate_ecc_keypair().unwrap();
    assert_eq!(
        ecc_decrypt("onlyonepart", &pair.private_key),
        Err(CryptoError::InvalidFormat)
    );
    assert_eq!(
        ecc_decrypt("a.b.c", &pair.private_key),
        Err(CryptoError::InvalidFormat)
    );
}

#[test]
fn ecc_decrypt_rejects_malformed_parts() {
    let pair = generate_ecc_keypair().unwrap();
    // "a" is not valid Base64.
    assert_eq!(
        ecc_decrypt("a.b", &pair.private_key),
        Err(CryptoError::EncodingError)
    );
    // Both parts are Base64, but the first is not a SEC1 point.
    assert_eq!(
        ecc_decrypt("AAAA.AAAA", &pair.private_key),
        Err(CryptoError::KeyParseError)
    );
}

#[test]
fn ecc_encrypt_rejects_bad_pem() {
    assert_eq!(
        ecc_encrypt("text", "not a pem"),
        Err(CryptoError::KeyParseError)
    );
}

#[test]
fn derive_is_stable_and_iv_overlaps_key() {
    let secret = [1u8, 2, 3];
    let (key1, iv1) = derive_key_from_shared_secret(&secret);
    let (key2, iv2) = derive_key_from_shared_secret(&secret);
    assert_eq!(key1, key2);
    assert_eq!(iv1, iv2);
    assert_eq!(key1.len(), 32);
    assert_eq!(iv1.len(), 16);
    assert_eq!(iv1[..], key1[16..32]);
}

#[test]
fn derive_matches_sha256() {
    // The derived key is the whole SHA-256 digest of the secret.
    let (key, _) = derive_key_from_shared_secret(b"abc");
    let expected =
        hex_decode_bytes("ba7816bf8f01cfea414140de5dae2223b00361a396177a9cb410ff61f20015ad")
            .unwrap();
    assert_eq!(key, expected);
}

#[test]
fn generated_key_and_iv_have_documented_lengths() {
    let key = generate_aes_key();
    assert_eq!(key.len(), 64);
    assert!(key.chars().all(|c| c.is_ascii_hexdigit()));
    let iv = generate_aes_iv();
    assert_eq!(iv.len(), 32);
    assert!(iv.chars().all(|c| c.is_ascii_hexdigit()));
    assert_eq!(generate_random_key(5).len(), 10);
    assert_eq!(generate_random_key(0).len(), 0);
}

#[test]
fn generated_keys_are_fresh() {
    assert_ne!(generate_aes_key(), generate_aes_key());
}

#[test]
fn generated_key_works_with_aes() {
    let key = generate_aes_key();
    let iv = generate_aes_iv();
    let ct = aes_encrypt("fresh keys", &key, &iv).unwrap();
    assert_eq!(aes_decrypt(&ct, &key, &iv).unwrap(), "fresh keys");
}

//! Tests for the codec layer, the hash layer, and the error messages.

use crypto_toolkit::errors::usize_to_string;
use crypto_toolkit::hexcode::hex_decode_bytes;
use crypto_toolkit::{
    base64_decode, base64_encode, hex_decode, hex_encode, md5_hash, sha256_hash, sha512_hash,
    url_decode, url_encode, CryptoError,
};

#[test]
fn base64_encode_known_value() {
    assert_eq!(base64_encode("hello"), "aGVsbG8=");
    assert_eq!(base64_encode(""), "");
}

#[test]
fn base64_round_trip() {
    let encoded = base64_encode("hello world");
    assert_eq!(base64_decode(&encoded).unwrap(), "hello world");
    let encoded = base64_encode("héllo wörld ✓");
    assert_eq!(base64_decode(&encoded).unwrap(), "héllo wörld ✓");
}

#[test]
fn base64_decode_rejects_malformed_input() {
    assert_eq!(
        base64_decode("not-valid-base64!!"),
        Err(CryptoError::EncodingError)
    );
}

#[test]
fn base64_decode_rejects_non_utf8_bytes() {
    // "/w==" is the Base64 of the single byte 0xFF, which is not UTF-8.
    assert_eq!(base64_decode("/w=="), Err(CryptoError::TextDecodingError));
}

#[test]
fn hex_encode_known_value() {
    assert_eq!(hex_encode("abc"), "616263");
    assert_eq!(hex_encode(""), "");
}

#[test]
fn hex_decode_round_trip_and_case() {
    assert_eq!(hex_decode("616263").unwrap(), "abc");
    assert_eq!(hex_decode("4A").unwrap(), "J");
    assert_eq!(hex_decode("").unwrap(), "");
}

#[test]
fn hex_decode_rejects_malformed_input() {
    assert_eq!(hex_decode("61626"), Err(CryptoError::EncodingError));
    assert_eq!(hex_decode("zz"), Err(CryptoError::EncodingError));
}

#[test]
fn hex_decode_rejects_non_utf8_bytes() {
    assert_eq!(hex_decode("ff"), Err(CryptoError::TextDecodingError));
}

#[test]
fn hex_decode_bytes_known_value() {
    assert_eq!(hex_decode_bytes("00ff10").unwrap(), vec![0x00, 0xff, 0x10]);
    assert!(hex_decode_bytes("0").is_none());
}

#[test]
fn url_encode_known_value() {
    assert_eq!(url_encode("hello world"), "hello%20world");
    assert_eq!(url_encode("a-b_c.d~e"), "a-b_c.d~e");
}

#[test]
fn url_round_trip() {
    let encoded = url_encode("a b&c=d?é");
    assert_eq!(url_decode(&encoded).unwrap(), "a b&c=d?é");
}

#[test]
fn url_decode_rejects_non_utf8_escapes() {
    assert_eq!(url_decode("%ff"), Err(CryptoError::TextDecodingError));
}

#[test]
fn url_decode_rejects_malformed_escapes() {
    assert_eq!(url_decode("%zz"), Err(CryptoError::EncodingError));
    assert_eq!(url_decode("abc%4"), Err(CryptoError::EncodingError));
    assert_eq!(url_decode("trailing%"), Err(CryptoError::EncodingError));
}

#[test]
fn url_encode_uses_uppercase_hex() {
    // 'ÿ' is the UTF-8 bytes C3 BF.
    assert_eq!(url_encode("ÿ"), "%C3%BF");
}

#[test]
fn md5_known_vectors() {
    assert_eq!(md5_hash(""), "d41d8cd98f00b204e9800998ecf8427e");
    assert_eq!(md5_hash("abc"), "900150983cd24fb0d6963f7d28e17f72");
}

#[test]
fn sha256_known_vectors() {
    assert_eq!(
        sha256_hash(""),
        "e3b0c44298fc1c149afbf4c8996fb92427ae41e4649b934ca495991b7852b855"
    );
    assert_eq!(
        sha256_hash("abc"),
        "ba7816bf8f01cfea414140de5dae2223b00361a396177a9cb410ff61f20015ad"
    );
}

#[test]
fn sha512_known_vector() {
    assert_eq!(
        sha512_hash("abc"),
        "ddaf35a193617abacc417349ae20413112e6fa4e89a97ea20a9eeee64b55d39a\
         2192992a274fc1a836ba3c23a3feebbd454d4423643ce80e2a9ac94fa54ca49f"
    );
}

#[test]
fn hashing_is_deterministic() {
    let text = "determinism check";
    assert_eq!(sha256_hash(text), sha256_hash(text));
    assert_eq!(md5_hash(text), md5_hash(text));
    assert_eq!(sha512_hash(text), sha512_hash(text));
    assert_eq!(base64_encode(text), base64_encode(text));
    assert_eq!(hex_encode(text), hex_encode(text));
    assert_eq!(url_encode(text), url_encode(text));
}

#[test]
fn error_messages_name_the_observed_size() {
    assert_eq!(
        CryptoError::InvalidKeyLength { got: 31 }.message(),
        "AES-256 requires a 32-byte key, got 31 bytes"
    );
    assert_eq!(
        CryptoError::InvalidIvLength { got: 0 }.message(),
        "AES-CBC requires a 16-byte IV, got 0 bytes"
    );
}

#[test]
fn usize_rendering() {
    assert_eq!(usize_to_string(0), "0");
    assert_eq!(usize_to_string(7), "7");
    assert_eq!(usize_to_string(12345), "12345");
}

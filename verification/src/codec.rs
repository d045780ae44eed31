//! Base64 and URL percent-encoding, provided by outside crates behind
//! trusted wrappers. Both encodings are deterministic functions of their
//! input: Base64 is given a name that the contracts speak of, together
//! with the documented facts (length, alphabet, decoding inverts it),
//! while URL encoding is simple enough to be characterized exactly by a
//! spec function, with a verified well-formedness check guarding decoding.

use vstd::prelude::*;
use vstd::string::StringSliceAdditionalSpecFns;

use base64::Engine;

use crate::errors::CryptoError;
use crate::hexcode::{hex_char_val, hex_char_val_exec};
use crate::strutil::bytes_to_string;

verus! {

/// The standard, padded Base64 rendering of a byte sequence.
pub uninterp spec fn b64_of(b: Seq<u8>) -> Seq<char>;

/// What standard Base64 decoding yields on a text, if it is well-formed.
pub uninterp spec fn b64_decode_of(s: Seq<char>) -> Option<Seq<u8>>;

/// Relies on `base64::engine::general_purpose::STANDARD.encode`: the padded
/// standard-alphabet encoding, a deterministic function of the bytes alone,
/// inverted by `STANDARD.decode`; its output is four characters for every
/// three-byte group, and its alphabet (`A`-`Z`, `a`-`z`, `0`-`9`, `+`, `/`,
/// `=`) never contains a `.`.
#[verifier::external_body]
pub(crate) fn base64_encode_bytes(b: &[u8]) -> (r: String)
    ensures
        r@ == b64_of(b@),
        b64_decode_of(r@) == Some(b@),
        r@.len() == 4 * ((b@.len() + 2) / 3),
        forall|i: int| 0 <= i < r@.len() ==> r@[i] != '.',
{
    base64::engine::general_purpose::STANDARD.encode(b)
}

/// Relies on `base64::engine::general_purpose::STANDARD.decode`: a
/// deterministic function of the text alone that fails exactly on malformed
/// input.
#[verifier::external_body]
pub(crate) fn base64_decode_str(s: &str) -> (r: Option<Vec<u8>>)
    ensures
        match b64_decode_of(s@) {
            Some(b) => r is Some && r->0@ == b,
            None => r is None,
        },
{
    base64::engine::general_purpose::STANDARD.decode(s).ok()
}

/// A byte that URL percent-encoding passes through unchanged:
/// alphanumerics and `-` (45), `_` (95), `.` (46), `~` (126).
pub open spec fn url_safe_byte(b: u8) -> bool {
    (65 <= b && b <= 90) || (97 <= b && b <= 122) || (48 <= b && b <= 57) || b == 45 || b == 95
        || b == 46 || b == 126
}

/// The uppercase hex character of a value below 16.
pub open spec fn upper_hex_char(d: nat) -> char {
    if d < 10 {
        crate::errors::dec_digit(d)
    } else if d == 10 {
        'A'
    } else if d == 11 {
        'B'
    } else if d == 12 {
        'C'
    } else if d == 13 {
        'D'
    } else if d == 14 {
        'E'
    } else {
        'F'
    }
}

/// What URL percent-encoding emits for one byte: the byte's own character
/// if it is safe, else `%` and two uppercase hex digits.
pub open spec fn url_enc_byte(b: u8) -> Seq<char> {
    if url_safe_byte(b) {
        seq![b as char]
    } else {
        seq!['%', upper_hex_char((b / 16) as nat), upper_hex_char((b % 16) as nat)]
    }
}

/// The URL percent-encoding of a byte sequence.
pub open spec fn spec_url_encode(bytes: Seq<u8>) -> Seq<char>
    decreases bytes.len(),
{
    if bytes.len() == 0 {
        Seq::empty()
    } else {
        url_enc_byte(bytes[0]) + spec_url_encode(bytes.drop_first())
    }
}

/// What URL percent-decoding yields on a text, if the escaped bytes are
/// valid UTF-8.
pub uninterp spec fn url_decoded_of(s: Seq<char>) -> Option<Seq<char>>;

/// Whether every `%` in a text is followed by two hex digits.
pub open spec fn url_wellformed(s: Seq<char>) -> bool {
    forall|i: int|
        0 <= i < s.len() && #[trigger] s[i] == '%' ==> i + 2 < s.len() && hex_char_val(
            s[i + 1],
        ) is Some && hex_char_val(s[i + 2]) is Some
}

/// Every `%` the URL encoding emits starts a three-character escape, so an
/// encoded text always passes the well-formedness check that `url_decode`
/// runs.
pub proof fn lemma_url_encode_wellformed(bytes: Seq<u8>)
    ensures
        url_wellformed(spec_url_encode(bytes)),
    decreases bytes.len(),
{
    if bytes.len() > 0 {
        let chunk = url_enc_byte(bytes[0]);
        let rest = spec_url_encode(bytes.drop_first());
        let s = spec_url_encode(bytes);
        lemma_url_encode_wellformed(bytes.drop_first());
        assert(s == chunk + rest);
        assert forall|i: int|
            0 <= i < s.len() && #[trigger] s[i] == '%' implies i + 2 < s.len() && hex_char_val(
            s[i + 1],
        ) is Some && hex_char_val(s[i + 2]) is Some by {
            if i < chunk.len() {
                if url_safe_byte(bytes[0]) {
                    assert(s[i] == bytes[0] as char);
                    assert(bytes[0] as char != '%');
                } else {
                    assert(i == 0);
                    assert(s[1] == upper_hex_char((bytes[0] / 16) as nat));
                    assert(s[2] == upper_hex_char((bytes[0] % 16) as nat));
                }
            } else {
                let k = i - chunk.len();
                assert(rest[k] == s[i]);
                assert(s[i + 1] == rest[k + 1]);
                assert(s[i + 2] == rest[k + 2]);
            }
        }
    }
}

/// Relies on `urlencoding::encode`: it escapes exactly the unsafe bytes of
/// the text's UTF-8 form, with uppercase hex, so the result is the encoding
/// `spec_url_encode` describes; `urlencoding::decode` inverts it.
#[verifier::external_body]
pub(crate) fn url_encode_str(s: &str) -> (r: String)
    ensures
        r@ == spec_url_encode(s.spec_bytes()),
        url_decoded_of(r@) == Some(s@),
{
    urlencoding::encode(s).to_string()
}

/// Relies on `urlencoding::decode`: a deterministic function of the text
/// alone that fails exactly when the escaped bytes are not valid UTF-8.
#[verifier::external_body]
pub(crate) fn url_decode_str(s: &str) -> (r: Option<String>)
    ensures
        match url_decoded_of(s@) {
            Some(t) => r is Some && r->0@ == t,
            None => r is None,
        },
{
    match urlencoding::decode(s) {
        Ok(t) => Some(t.to_string()),
        Err(_) => None,
    }
}

/// Encodes the UTF-8 bytes of a text as standard, padded Base64: four
/// characters for every three-byte group.
pub fn base64_encode(text: &str) -> (r: String)
    ensures
        r@ == b64_of(text.spec_bytes()),
        b64_decode_of(r@) == Some(text.spec_bytes()),
        r@.len() == 4 * ((text.spec_bytes().len() + 2) / 3),
{
    base64_encode_bytes(text.as_bytes())
}

/// Decodes a Base64 text and interprets the bytes as UTF-8. Fails with
/// `EncodingError` exactly when the input is not well-formed Base64, and
/// with `TextDecodingError` exactly when the decoded bytes are not text.
pub fn base64_decode(encoded: &str) -> (r: Result<String, CryptoError>)
    ensures
        match b64_decode_of(encoded@) {
            None => r == Err::<String, CryptoError>(CryptoError::EncodingError),
            Some(b) => {
                if vstd::utf8::valid_utf8(b) {
                    r is Ok && r->Ok_0@ == vstd::utf8::decode_utf8(b)
                } else {
                    r == Err::<String, CryptoError>(CryptoError::TextDecodingError)
                }
            },
        },
{
    match base64_decode_str(encoded) {
        None => Err(CryptoError::EncodingError),
        Some(bytes) => match bytes_to_string(bytes) {
            Some(text) => Ok(text),
            None => Err(CryptoError::TextDecodingError),
        },
    }
}

/// Percent-encodes a text for use in a URL: each unsafe byte of its UTF-8
/// form becomes `%` and two uppercase hex digits. The result is always
/// well-formed, so `url_decode` recovers the original text from it.
pub fn url_encode(text: &str) -> (r: String)
    ensures
        r@ == spec_url_encode(text.spec_bytes()),
        url_decoded_of(r@) == Some(text@),
        url_wellformed(r@),
{
    let r = url_encode_str(text);
    proof {
        lemma_url_encode_wellformed(text.spec_bytes());
    }
    r
}

/// Checks that every `%` is followed by two hex digits.
fn url_wellformed_exec(s: &str) -> (r: bool)
    ensures
        r == url_wellformed(s@),
{
    let n = s.unicode_len();
    let mut i: usize = 0;
    while i < n
        invariant
            i <= n,
            n == s@.len(),
            forall|j: int|
                0 <= j < i && #[trigger] s@[j] == '%' ==> j + 2 < s@.len() && hex_char_val(
                    s@[j + 1],
                ) is Some && hex_char_val(s@[j + 2]) is Some,
        decreases n - i,
    {
        let c = s.get_char(i);
        if c == '%' {
            if n - i < 3 {
                return false;
            }
            let c1 = s.get_char(i + 1);
            let c2 = s.get_char(i + 2);
            if hex_char_val_exec(c1).is_none() || hex_char_val_exec(c2).is_none() {
                return false;
            }
        }
        i = i + 1;
    }
    true
}

/// Decodes a percent-encoded text. Fails with `EncodingError` exactly when
/// some `%` is not followed by two hex digits, and with
/// `TextDecodingError` exactly when the escaped bytes are not valid UTF-8.
pub fn url_decode(encoded: &str) -> (r: Result<String, CryptoError>)
    ensures
        !url_wellformed(encoded@) ==> r == Err::<String, CryptoError>(CryptoError::EncodingError),
        url_wellformed(encoded@) ==> match url_decoded_of(encoded@) {
            None => r == Err::<String, CryptoError>(CryptoError::TextDecodingError),
            Some(t) => r is Ok && r->Ok_0@ == t,
        },
{
    if !url_wellformed_exec(encoded) {
        return Err(CryptoError::EncodingError);
    }
    match url_decode_str(encoded) {
        None => Err(CryptoError::TextDecodingError),
        Some(text) => Ok(text),
    }
}

} // verus!

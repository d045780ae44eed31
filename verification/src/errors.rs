//! The error taxonomy shared by every engine. Each failure names the
//! violated precondition and, where a length was measured, the length that
//! was actually observed.

use vstd::prelude::*;

use crate::strutil::push_char;

verus! {

/// One error kind per way a call can fail. All errors are local to a single
/// call and recoverable by supplying corrected input.
#[derive(Clone, Copy, Debug, PartialEq, Eq, Structural)]
pub enum CryptoError {
    /// A symmetric key whose decoded length is not exactly 32 bytes.
    InvalidKeyLength { got: usize },
    /// An initialization vector whose decoded length is not exactly 16 bytes.
    InvalidIvLength { got: usize },
    /// Malformed Base64, hex, or URL-encoded input.
    EncodingError,
    /// A PEM key that is structurally invalid or of the wrong variant.
    KeyParseError,
    /// The cipher or key generator itself failed during encryption.
    EncryptionError,
    /// The cipher failed during decryption (wrong length or bad padding).
    DecryptionError,
    /// Decrypted or decoded bytes that are not valid UTF-8 text.
    TextDecodingError,
    /// A hybrid composite ciphertext that does not split into exactly two parts.
    InvalidFormat,
}

/// The view of a string-or-error result, for stating exact contracts.
pub open spec fn res_view(r: Result<String, CryptoError>) -> Result<Seq<char>, CryptoError> {
    match r {
        Ok(s) => Ok(s@),
        Err(e) => Err(e),
    }
}

pub open spec fn dec_digit(d: nat) -> char {
    if d == 0 {
        '0'
    } else if d == 1 {
        '1'
    } else if d == 2 {
        '2'
    } else if d == 3 {
        '3'
    } else if d == 4 {
        '4'
    } else if d == 5 {
        '5'
    } else if d == 6 {
        '6'
    } else if d == 7 {
        '7'
    } else if d == 8 {
        '8'
    } else {
        '9'
    }
}

/// The decimal rendering of a natural number, most significant digit first.
pub open spec fn spec_decimal(n: nat) -> Seq<char>
    decreases n,
{
    if n < 10 {
        seq![dec_digit(n)]
    } else {
        spec_decimal(n / 10).push(dec_digit(n % 10))
    }
}

pub(crate) fn dec_digit_exec(d: u8) -> (c: char)
    requires
        d < 10,
    ensures
        c == dec_digit(d as nat),
{
    if d == 0 {
        '0'
    } else if d == 1 {
        '1'
    } else if d == 2 {
        '2'
    } else if d == 3 {
        '3'
    } else if d == 4 {
        '4'
    } else if d == 5 {
        '5'
    } else if d == 6 {
        '6'
    } else if d == 7 {
        '7'
    } else if d == 8 {
        '8'
    } else {
        '9'
    }
}

/// Renders a length in decimal, for use in error messages.
pub fn usize_to_string(n: usize) -> (r: String)
    ensures
        r@ == spec_decimal(n as nat),
    decreases n,
{
    if n < 10 {
        let mut s = String::new();
        let c = dec_digit_exec(n as u8);
        push_char(&mut s, c);
        proof {
            assert(Seq::<char>::empty().push(c) =~= seq![c]);
        }
        s
    } else {
        let mut s = usize_to_string(n / 10);
        let d = (n % 10) as u8;
        let c = dec_digit_exec(d);
        push_char(&mut s, c);
        s
    }
}

/// The human-readable message that belongs to each error kind.
pub open spec fn message_spec(e: CryptoError) -> Seq<char> {
    match e {
        CryptoError::InvalidKeyLength { got } => "AES-256 requires a 32-byte key, got "@
            + spec_decimal(got as nat) + " bytes"@,
        CryptoError::InvalidIvLength { got } => "AES-CBC requires a 16-byte IV, got "@
            + spec_decimal(got as nat) + " bytes"@,
        CryptoError::EncodingError => "malformed Base64, hex, or URL-encoded input"@,
        CryptoError::KeyParseError => "PEM key is structurally invalid or of the wrong variant"@,
        CryptoError::EncryptionError => "encryption failed"@,
        CryptoError::DecryptionError => "decryption failed: bad length or padding"@,
        CryptoError::TextDecodingError => "decoded bytes are not valid UTF-8 text"@,
        CryptoError::InvalidFormat => "composite ciphertext must have exactly two '.'-separated parts"@,
    }
}

impl CryptoError {
    /// The human-readable description of this error.
    pub fn message(&self) -> (r: String)
        ensures
            r@ == message_spec(*self),
    {
        match *self {
            CryptoError::InvalidKeyLength { got } => {
                let mut s = String::from_str("AES-256 requires a 32-byte key, got ");
                let num = usize_to_string(got);
                s.append(num.as_str());
                s.append(" bytes");
                s
            },
            CryptoError::InvalidIvLength { got } => {
                let mut s = String::from_str("AES-CBC requires a 16-byte IV, got ");
                let num = usize_to_string(got);
                s.append(num.as_str());
                s.append(" bytes");
                s
            },
            CryptoError::EncodingError => String::from_str(
                "malformed Base64, hex, or URL-encoded input",
            ),
            CryptoError::KeyParseError => String::from_str(
                "PEM key is structurally invalid or of the wrong variant",
            ),
            CryptoError::EncryptionError => String::from_str("encryption failed"),
            CryptoError::DecryptionError => String::from_str(
                "decryption failed: bad length or padding",
            ),
            CryptoError::TextDecodingError => String::from_str(
                "decoded bytes are not valid UTF-8 text",
            ),
            CryptoError::InvalidFormat => String::from_str(
                "composite ciphertext must have exactly two '.'-separated parts",
            ),
        }
    }
}

} // verus!

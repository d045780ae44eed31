//! The hex codec, implemented and verified here: lowercase encoding of
//! bytes, decoding of upper- or lowercase digit pairs, and the proof that
//! decoding inverts encoding.

use vstd::prelude::*;
use vstd::string::StringSliceAdditionalSpecFns;

use crate::errors::{dec_digit, dec_digit_exec, CryptoError};
use crate::strutil::{bytes_to_string, push_char};

verus! {

/// The lowercase hex character of a value below 16.
pub open spec fn hex_digit_char(d: nat) -> char {
    if d < 10 {
        dec_digit(d)
    } else if d == 10 {
        'a'
    } else if d == 11 {
        'b'
    } else if d == 12 {
        'c'
    } else if d == 13 {
        'd'
    } else if d == 14 {
        'e'
    } else {
        'f'
    }
}

/// The value of a hex digit character, upper- or lowercase, if it is one.
pub open spec fn hex_char_val(c: char) -> Option<u8> {
    if c == '0' {
        Some(0u8)
    } else if c == '1' {
        Some(1u8)
    } else if c == '2' {
        Some(2u8)
    } else if c == '3' {
        Some(3u8)
    } else if c == '4' {
        Some(4u8)
    } else if c == '5' {
        Some(5u8)
    } else if c == '6' {
        Some(6u8)
    } else if c == '7' {
        Some(7u8)
    } else if c == '8' {
        Some(8u8)
    } else if c == '9' {
        Some(9u8)
    } else if c == 'a' || c == 'A' {
        Some(10u8)
    } else if c == 'b' || c == 'B' {
        Some(11u8)
    } else if c == 'c' || c == 'C' {
        Some(12u8)
    } else if c == 'd' || c == 'D' {
        Some(13u8)
    } else if c == 'e' || c == 'E' {
        Some(14u8)
    } else if c == 'f' || c == 'F' {
        Some(15u8)
    } else {
        None
    }
}

/// Lowercase hex rendering of a byte sequence: two digits per byte.
pub open spec fn spec_hex_encode(b: Seq<u8>) -> Seq<char>
    decreases b.len(),
{
    if b.len() == 0 {
        Seq::empty()
    } else {
        seq![
            hex_digit_char((b[0] / 16) as nat),
            hex_digit_char((b[0] % 16) as nat),
        ] + spec_hex_encode(b.drop_first())
    }
}

/// Decoding of a hex string: `Some` exactly when the length is even and
/// every character is a hex digit.
pub open spec fn spec_hex_decode(s: Seq<char>) -> Option<Seq<u8>>
    decreases s.len(),
{
    if s.len() == 0 {
        Some(Seq::empty())
    } else if s.len() == 1 {
        None
    } else if hex_char_val(s[0]) is Some && hex_char_val(s[1]) is Some {
        match spec_hex_decode(s.skip(2)) {
            Some(rest) => Some(
                seq![(hex_char_val(s[0])->0 * 16 + hex_char_val(s[1])->0) as u8] + rest,
            ),
            None => None,
        }
    } else {
        None
    }
}

pub proof fn lemma_hex_encode_len(b: Seq<u8>)
    ensures
        spec_hex_encode(b).len() == 2 * b.len(),
    decreases b.len(),
{
    if b.len() > 0 {
        lemma_hex_encode_len(b.drop_first());
    }
}

proof fn lemma_hex_encode_push(b: Seq<u8>, x: u8)
    ensures
        spec_hex_encode(b.push(x)) == spec_hex_encode(b) + seq![
            hex_digit_char((x / 16) as nat),
            hex_digit_char((x % 16) as nat),
        ],
    decreases b.len(),
{
    let tail = seq![hex_digit_char((x / 16) as nat), hex_digit_char((x % 16) as nat)];
    if b.len() == 0 {
        reveal_with_fuel(spec_hex_encode, 2);
        assert(b.push(x)[0] == x);
        assert(b.push(x).drop_first() =~= Seq::<u8>::empty());
        assert(spec_hex_encode(b.push(x)) =~= seq![
            hex_digit_char((x / 16) as nat),
            hex_digit_char((x % 16) as nat),
        ] + spec_hex_encode(b.push(x).drop_first()));
        assert(spec_hex_encode(b.push(x)) =~= spec_hex_encode(b) + tail);
    } else {
        assert(b.push(x)[0] == b[0]);
        assert(b.push(x).drop_first() =~= b.drop_first().push(x));
        lemma_hex_encode_push(b.drop_first(), x);
        assert(spec_hex_encode(b.push(x)) =~= seq![
            hex_digit_char((b[0] / 16) as nat),
            hex_digit_char((b[0] % 16) as nat),
        ] + (spec_hex_encode(b.drop_first()) + tail));
        assert(spec_hex_encode(b.push(x)) =~= spec_hex_encode(b) + tail);
    }
}

/// Decoding inverts encoding: the hex rendering of any byte sequence
/// decodes back to exactly that sequence.
pub proof fn lemma_hex_round_trip(b: Seq<u8>)
    ensures
        spec_hex_decode(spec_hex_encode(b)) == Some(b),
    decreases b.len(),
{
    if b.len() == 0 {
    } else {
        let s = spec_hex_encode(b);
        lemma_hex_encode_len(b.drop_first());
        assert(s.skip(2) =~= spec_hex_encode(b.drop_first()));
        lemma_hex_round_trip(b.drop_first());
        vstd::arithmetic::div_mod::lemma_fundamental_div_mod(b[0] as int, 16);
        assert(seq![b[0]] + b.drop_first() =~= b);
    }
}

fn hex_digit_exec(d: u8) -> (c: char)
    requires
        d < 16,
    ensures
        c == hex_digit_char(d as nat),
{
    if d < 10 {
        dec_digit_exec(d)
    } else if d == 10 {
        'a'
    } else if d == 11 {
        'b'
    } else if d == 12 {
        'c'
    } else if d == 13 {
        'd'
    } else if d == 14 {
        'e'
    } else {
        'f'
    }
}

pub(crate) fn hex_char_val_exec(c: char) -> (r: Option<u8>)
    ensures
        r == hex_char_val(c),
{
    if c == '0' {
        Some(0u8)
    } else if c == '1' {
        Some(1u8)
    } else if c == '2' {
        Some(2u8)
    } else if c == '3' {
        Some(3u8)
    } else if c == '4' {
        Some(4u8)
    } else if c == '5' {
        Some(5u8)
    } else if c == '6' {
        Some(6u8)
    } else if c == '7' {
        Some(7u8)
    } else if c == '8' {
        Some(8u8)
    } else if c == '9' {
        Some(9u8)
    } else if c == 'a' || c == 'A' {
        Some(10u8)
    } else if c == 'b' || c == 'B' {
        Some(11u8)
    } else if c == 'c' || c == 'C' {
        Some(12u8)
    } else if c == 'd' || c == 'D' {
        Some(13u8)
    } else if c == 'e' || c == 'E' {
        Some(14u8)
    } else if c == 'f' || c == 'F' {
        Some(15u8)
    } else {
        None
    }
}

/// Renders bytes as lowercase hex text.
pub fn hex_encode_bytes(b: &[u8]) -> (r: String)
    ensures
        r@ == spec_hex_encode(b@),
{
    let mut s = String::new();
    let mut i: usize = 0;
    proof {
        assert(b@.take(0) =~= Seq::<u8>::empty());
    }
    while i < b.len()
        invariant
            i <= b@.len(),
            s@ == spec_hex_encode(b@.take(i as int)),
        decreases b@.len() - i,
    {
        let byte = b[i];
        let hi = hex_digit_exec(byte / 16);
        let lo = hex_digit_exec(byte % 16);
        push_char(&mut s, hi);
        push_char(&mut s, lo);
        proof {
            lemma_hex_encode_push(b@.take(i as int), byte);
            assert(b@.take(i as int).push(byte) =~= b@.take(i + 1));
            assert(s@ =~= spec_hex_encode(b@.take(i + 1)));
        }
        i = i + 1;
    }
    proof {
        assert(b@.take(b@.len() as int) =~= b@);
    }
    s
}

/// Decodes a hex string to bytes; `None` exactly when the text is not
/// well-formed hex.
pub fn hex_decode_bytes(s: &str) -> (r: Option<Vec<u8>>)
    ensures
        r is Some <==> spec_hex_decode(s@) is Some,
        r is Some ==> r->0@ == spec_hex_decode(s@)->0,
{
    let n = s.unicode_len();
    if n % 2 != 0 {
        proof {
            lemma_hex_decode_odd(s@);
        }
        return None;
    }
    let mut acc: Vec<u8> = Vec::new();
    let mut i: usize = 0;
    proof {
        assert(s@.skip(0) =~= s@);
    }
    while i < n
        invariant
            i % 2 == 0,
            i <= n,
            n == s@.len(),
            n % 2 == 0,
            spec_hex_decode(s@) is Some <==> spec_hex_decode(s@.skip(i as int)) is Some,
            spec_hex_decode(s@) is Some ==> spec_hex_decode(s@) == Some(
                acc@ + spec_hex_decode(s@.skip(i as int))->0,
            ),
        decreases n - i,
    {
        let c0 = s.get_char(i);
        let c1 = s.get_char(i + 1);
        let v0 = hex_char_val_exec(c0);
        let v1 = hex_char_val_exec(c1);
        let ghost rest = s@.skip(i as int);
        proof {
            assert(rest[0] == s@[i as int]);
            assert(rest[1] == s@[i + 1]);
            assert(rest.skip(2) =~= s@.skip(i + 2));
        }
        match (v0, v1) {
            (Some(h), Some(l)) => {
                acc.push(h * 16 + l);
                proof {
                    if spec_hex_decode(s@.skip(i + 2)) is Some {
                        assert(acc@ + spec_hex_decode(s@.skip(i + 2))->0 =~= acc@.drop_last()
                            + spec_hex_decode(rest)->0);
                    }
                }
                i = i + 2;
            },
            _ => {
                return None;
            },
        }
    }
    proof {
        assert(s@.skip(n as int) =~= Seq::<char>::empty());
        assert(acc@ + spec_hex_decode(s@.skip(n as int))->0 =~= acc@);
    }
    Some(acc)
}

proof fn lemma_hex_decode_odd(s: Seq<char>)
    requires
        s.len() % 2 == 1,
    ensures
        spec_hex_decode(s) is None,
    decreases s.len(),
{
    if s.len() > 1 {
        lemma_hex_decode_odd(s.skip(2));
    }
}

/// Encodes the UTF-8 bytes of a text as lowercase hex.
pub fn hex_encode(text: &str) -> (r: String)
    ensures
        r@ == spec_hex_encode(text.spec_bytes()),
{
    hex_encode_bytes(text.as_bytes())
}

/// Decodes a hex string and interprets the bytes as UTF-8 text. Fails with
/// `EncodingError` exactly when the input is not well-formed hex, and with
/// `TextDecodingError` exactly when the decoded bytes are not valid UTF-8.
pub fn hex_decode(encoded: &str) -> (r: Result<String, CryptoError>)
    ensures
        match spec_hex_decode(encoded@) {
            None => r == Err::<String, CryptoError>(CryptoError::EncodingError),
            Some(b) => {
                if vstd::utf8::valid_utf8(b) {
                    r is Ok && r->Ok_0@ == vstd::utf8::decode_utf8(b)
                } else {
                    r == Err::<String, CryptoError>(CryptoError::TextDecodingError)
                }
            },
        },
{
    match hex_decode_bytes(encoded) {
        None => Err(CryptoError::EncodingError),
        Some(bytes) => match bytes_to_string(bytes) {
            Some(text) => Ok(text),
            None => Err(CryptoError::TextDecodingError),
        },
    }
}

} // verus!

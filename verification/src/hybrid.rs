//! The hybrid EC cipher engine: ECDH key agreement on P-256 with a fresh
//! ephemeral key per message, SHA-256 key/IV derivation from the shared
//! secret, AES-256-CBC payload encryption, and the two-part composite
//! framing `<base64 ephemeral key>.<base64 ciphertext>`. The curve
//! arithmetic and PEM parsing are the `p256` crate behind trusted wrappers;
//! the derivation, the framing, its validation, and the open-with-secret
//! round trip are verified here.

use vstd::prelude::*;
use vstd::string::StringSliceAdditionalSpecFns;
use vstd::utf8::{decode_utf8, valid_utf8};

use p256::pkcs8::{DecodePrivateKey, DecodePublicKey, EncodePrivateKey, EncodePublicKey,
    LineEnding};

use crate::codec::{b64_decode_of, b64_of, base64_decode_str, base64_encode_bytes};
use crate::errors::{res_view, CryptoError};
use crate::hashes::{sha256_digest_bytes, sha256_of};
use crate::strutil::push_char;
use crate::symmetric::{aes256_cbc_decrypt_bytes, aes256_cbc_encrypt_bytes, aes_cbc_dec,
    aes_cbc_enc};

verus! {

/// Whether a text is an SPKI PEM that parses as a P-256 public key.
pub uninterp spec fn ec_pub_pem_ok(pem: Seq<char>) -> bool;

/// Whether a text is a PKCS#8 PEM that parses as a P-256 private key.
pub uninterp spec fn ec_priv_pem_ok(pem: Seq<char>) -> bool;

/// Whether bytes are a valid SEC1 encoding of a P-256 point.
pub uninterp spec fn sec1_point_ok(b: Seq<u8>) -> bool;

/// The ECDH shared secret determined by a private-key PEM and an ephemeral
/// public point, a function of the two alone.
pub uninterp spec fn ecdh_shared_of(pem: Seq<char>, point: Seq<u8>) -> Seq<u8>;

/// Relies on `p256::PublicKey::from_public_key_pem` (whose success is a
/// function of the text alone), `p256::ecdh::EphemeralSecret::random` with
/// `OsRng`, and `EphemeralSecret::diffie_hellman`: parses the recipient key
/// and agrees a fresh shared secret. The ephemeral key is random and lives
/// only inside this call, so beyond the SEC1 point length (65 bytes,
/// uncompressed, on P-256) and the secret length (32 bytes) nothing is
/// promised of the pair.
#[verifier::external_body]
fn ecdh_ephemeral_for_pem(pem: &str) -> (r: Option<(Vec<u8>, Vec<u8>)>)
    ensures
        r is Some == ec_pub_pem_ok(pem@),
        r matches Some(v) ==> v.0@.len() == 65 && v.1@.len() == 32,
{
    let recipient = p256::PublicKey::from_public_key_pem(pem).ok()?;
    let ephemeral_secret = p256::ecdh::EphemeralSecret::random(&mut rand::rngs::OsRng);
    let point = ephemeral_secret.public_key().to_sec1_bytes().to_vec();
    let shared_secret = ephemeral_secret.diffie_hellman(&recipient);
    Some((point, shared_secret.raw_secret_bytes().to_vec()))
}

/// Relies on `p256::PublicKey::from_sec1_bytes` and
/// `p256::SecretKey::from_pkcs8_pem` (whose successes are functions of
/// their inputs alone) and `p256::elliptic_curve::ecdh::diffie_hellman`:
/// parses both keys and computes their shared secret, a 32-byte function of
/// the two inputs alone.
#[verifier::external_body]
fn ecdh_agree_pem(private_key_pem: &str, point: &[u8]) -> (r: Option<Vec<u8>>)
    ensures
        r is Some == (sec1_point_ok(point@) && ec_priv_pem_ok(private_key_pem@)),
        r matches Some(ss) ==> ss@ == ecdh_shared_of(private_key_pem@, point@) && ss@.len()
            == 32,
{
    let ephemeral_public = p256::PublicKey::from_sec1_bytes(point).ok()?;
    let secret_key = p256::SecretKey::from_pkcs8_pem(private_key_pem).ok()?;
    let shared_secret = p256::elliptic_curve::ecdh::diffie_hellman(
        secret_key.to_nonzero_scalar(),
        ephemeral_public.as_affine(),
    );
    Some(shared_secret.raw_secret_bytes().to_vec())
}

/// Relies on `p256::SecretKey::random` with `OsRng` and the PKCS#8 / SPKI
/// PEM encoders of the `p256` crate: a fresh key pair as (public, private)
/// PEM text. The crate's decoders read back what its encoders write, so
/// both PEMs parse again as the variants the other engines expect. The
/// keys are random, so nothing more is promised.
#[verifier::external_body]
fn generate_ec_keypair_pems() -> (r: Option<(String, String)>)
    ensures
        r matches Some(pems) ==> ec_pub_pem_ok(pems.0@) && ec_priv_pem_ok(pems.1@),
{
    let secret_key = p256::SecretKey::random(&mut rand::rngs::OsRng);
    let public_key = secret_key.public_key();
    let private_pem = secret_key.to_pkcs8_pem(LineEnding::LF).ok()?;
    let public_pem = public_key.to_public_key_pem(LineEnding::LF).ok()?;
    Some((public_pem, private_pem.to_string()))
}

/// The 32-byte symmetric key derived from a shared secret: the whole
/// SHA-256 digest of it.
pub open spec fn derived_key(secret: Seq<u8>) -> Seq<u8> {
    sha256_of(secret)
}

/// The 16-byte IV derived from a shared secret: bytes 16..32 of the same
/// SHA-256 digest, deliberately overlapping the key material.
pub open spec fn derived_iv(secret: Seq<u8>) -> Seq<u8> {
    sha256_of(secret).subrange(16, 32)
}

/// The derived IV is exactly the last 16 bytes of the derived key — the
/// deliberate overlapping-slice choice of this scheme, not independent
/// randomness.
pub proof fn lemma_derived_iv_overlaps_key(secret: Seq<u8>)
    ensures
        derived_iv(secret) == derived_key(secret).subrange(16, 32),
{
}

/// Derives the symmetric key and IV from an ECDH shared secret by hashing
/// it with SHA-256: key = hash[0..32], IV = hash[16..32]. A fixed secret
/// always yields the same pair.
pub fn derive_key_from_shared_secret(shared_secret: &[u8]) -> (r: (Vec<u8>, Vec<u8>))
    ensures
        r.0@ == derived_key(shared_secret@),
        r.1@ == derived_iv(shared_secret@),
        r.0@.len() == 32,
        r.1@.len() == 16,
{
    let hash = sha256_digest_bytes(shared_secret);
    let iv = vstd::slice::slice_to_vec(vstd::slice::slice_subrange(hash.as_slice(), 16, 32));
    (hash, iv)
}

/// How many `.` characters a text holds.
pub open spec fn count_dots(s: Seq<char>) -> nat
    decreases s.len(),
{
    if s.len() == 0 {
        0
    } else {
        count_dots(s.drop_last()) + (if s.last() == '.' {
            1nat
        } else {
            0nat
        })
    }
}

proof fn lemma_count_dots_concat(a: Seq<char>, b: Seq<char>)
    ensures
        count_dots(a + b) == count_dots(a) + count_dots(b),
    decreases b.len(),
{
    if b.len() == 0 {
        assert(a + b =~= a);
    } else {
        assert((a + b).drop_last() =~= a + b.drop_last());
        assert((a + b).last() == b.last());
        lemma_count_dots_concat(a, b.drop_last());
    }
}

proof fn lemma_count_dots_none(s: Seq<char>)
    requires
        forall|j: int| 0 <= j < s.len() ==> s[j] != '.',
    ensures
        count_dots(s) == 0,
    decreases s.len(),
{
    if s.len() > 0 {
        lemma_count_dots_none(s.drop_last());
    }
}

/// What opening a hybrid payload with a given shared secret yields: derive
/// key and IV, decrypt with AES-256-CBC, and decode the plaintext as UTF-8.
pub open spec fn hybrid_open_spec(secret: Seq<u8>, data: Seq<u8>) -> Result<
    Seq<char>,
    CryptoError,
> {
    match aes_cbc_dec(derived_key(secret), derived_iv(secret), data) {
        None => Err(CryptoError::DecryptionError),
        Some(p) => {
            if valid_utf8(p) {
                Ok(decode_utf8(p))
            } else {
                Err(CryptoError::TextDecodingError)
            }
        },
    }
}

/// What `ecc_decrypt` returns once the composite has split into its two
/// parts: both parts must be Base64, the first a valid SEC1 point, the PEM
/// a valid private key, and then the payload opens under the shared secret
/// that the private key and the point determine.
pub open spec fn hybrid_decrypt_post(
    r: Result<Seq<char>, CryptoError>,
    p1: Seq<char>,
    p2: Seq<char>,
    pem: Seq<char>,
) -> bool {
    match b64_decode_of(p1) {
        None => r == Err::<Seq<char>, CryptoError>(CryptoError::EncodingError),
        Some(point) => match b64_decode_of(p2) {
            None => r == Err::<Seq<char>, CryptoError>(CryptoError::EncodingError),
            Some(data) => {
                if !(sec1_point_ok(point) && ec_priv_pem_ok(pem)) {
                    r == Err::<Seq<char>, CryptoError>(CryptoError::KeyParseError)
                } else {
                    r == hybrid_open_spec(ecdh_shared_of(pem, point), data)
                }
            },
        },
    }
}

proof fn lemma_post_not_invalid_format(
    r: Result<Seq<char>, CryptoError>,
    p1: Seq<char>,
    p2: Seq<char>,
    pem: Seq<char>,
)
    requires
        hybrid_decrypt_post(r, p1, p2, pem),
    ensures
        r != Err::<Seq<char>, CryptoError>(CryptoError::InvalidFormat),
{
    if b64_decode_of(p1) is Some && b64_decode_of(p2) is Some {
        let point = b64_decode_of(p1)->0;
        let data = b64_decode_of(p2)->0;
        if sec1_point_ok(point) && ec_priv_pem_ok(pem) {
            assert(r == hybrid_open_spec(ecdh_shared_of(pem, point), data));
        }
    }
}

/// Encrypts a text with the key and IV derived from an already-agreed
/// shared secret and frames it with the given ephemeral-key encoding. The
/// last `ensures` clause is the round trip: the framed payload opens back
/// to the original text under the same shared secret.
pub fn ecc_encrypt_with_secret(text: &str, shared_secret: &[u8], eph_point: &[u8]) -> (r: String)
    requires
        text.spec_bytes().len() + 16 <= usize::MAX,
    ensures
        r@ == b64_of(eph_point@) + seq!['.'] + b64_of(
            aes_cbc_enc(
                derived_key(shared_secret@),
                derived_iv(shared_secret@),
                text.spec_bytes(),
            ),
        ),
        count_dots(r@) == 1,
        hybrid_open_spec(
            shared_secret@,
            aes_cbc_enc(
                derived_key(shared_secret@),
                derived_iv(shared_secret@),
                text.spec_bytes(),
            ),
        ) == Ok::<Seq<char>, CryptoError>(text@),
        b64_decode_of(b64_of(eph_point@)) == Some(eph_point@),
        (
        {
            let payload = aes_cbc_enc(
                derived_key(shared_secret@),
                derived_iv(shared_secret@),
                text.spec_bytes(),
            );
            b64_decode_of(b64_of(payload)) == Some(payload) && payload.len() == (
            text.spec_bytes().len() / 16 + 1) * 16
        }
        ),
{
    let kv = derive_key_from_shared_secret(shared_secret);
    let data = text.as_bytes();
    let ct = aes256_cbc_encrypt_bytes(data, kv.0.as_slice(), kv.1.as_slice());
    let mut out = base64_encode_bytes(eph_point);
    let ghost part1 = out@;
    push_char(&mut out, '.');
    let ct_b64 = base64_encode_bytes(ct.as_slice());
    let ghost part2 = ct_b64@;
    out.append(ct_b64.as_str());
    proof {
        assert(part1.push('.') =~= part1 + seq!['.']);
        assert(out@ =~= part1 + seq!['.'] + part2);
        lemma_count_dots_none(part1);
        lemma_count_dots_none(part2);
        reveal_with_fuel(count_dots, 2);
        assert(seq!['.'].drop_last() =~= Seq::<char>::empty());
        assert(seq!['.'].last() == '.');
        assert(count_dots(seq!['.']) == 1);
        lemma_count_dots_concat(part1, seq!['.']);
        lemma_count_dots_concat(part1 + seq!['.'], part2);
        vstd::utf8::encode_utf8_valid_utf8(text@);
        vstd::utf8::encode_utf8_decode_utf8(text@);
    }
    out
}

/// Opens a hybrid payload with an already-agreed shared secret: derives the
/// key and IV, decrypts, and decodes the plaintext as UTF-8.
pub fn ecc_decrypt_with_secret(data: &[u8], shared_secret: &[u8]) -> (r: Result<
    String,
    CryptoError,
>)
    ensures
        res_view(r) == hybrid_open_spec(shared_secret@, data@),
{
    let kv = derive_key_from_shared_secret(shared_secret);
    match aes256_cbc_decrypt_bytes(data, kv.0.as_slice(), kv.1.as_slice()) {
        None => Err(CryptoError::DecryptionError),
        Some(p) => match crate::strutil::bytes_to_string(p) {
            Some(t) => Ok(t),
            None => Err(CryptoError::TextDecodingError),
        },
    }
}

/// A P-256 key pair: an SPKI public key and a PKCS#8 private key, each as
/// PEM text.
#[derive(Debug)]
pub struct EccKeyPair {
    pub public_key: String,
    pub private_key: String,
}

/// Generates a fresh P-256 key pair. On success the public PEM parses back
/// as an SPKI public key (so `ecc_encrypt` accepts it) and the private PEM
/// as a PKCS#8 private key (so `ecc_decrypt` accepts it). Fails only if a
/// PEM encoder fails.
pub fn generate_ecc_keypair() -> (r: Result<EccKeyPair, CryptoError>)
    ensures
        r matches Err(e) ==> e == CryptoError::EncryptionError,
        r matches Ok(kp) ==> ec_pub_pem_ok(kp.public_key@) && ec_priv_pem_ok(kp.private_key@),
{
    match generate_ec_keypair_pems() {
        Some(pems) => Ok(EccKeyPair { public_key: pems.0, private_key: pems.1 }),
        None => Err(CryptoError::EncryptionError),
    }
}

/// Encrypts a text for the holder of a P-256 public key: a fresh ephemeral
/// key is generated for this call only, the shared secret is agreed, and
/// the payload is framed as `<base64 ephemeral key>.<base64 ciphertext>`.
/// Fails with `KeyParseError` exactly when the PEM does not parse. On
/// success the composite has exactly one `.` and opens back to the text
/// under the shared secret that was agreed.
pub fn ecc_encrypt(text: &str, public_key_pem: &str) -> (r: Result<String, CryptoError>)
    requires
        text.spec_bytes().len() + 16 <= usize::MAX,
    ensures
        r is Err <==> !ec_pub_pem_ok(public_key_pem@),
        r matches Err(e) ==> e == CryptoError::KeyParseError,
        r matches Ok(ct) ==> count_dots(ct@) == 1,
        r matches Ok(ct) ==> exists|ss: Seq<u8>, pt: Seq<u8>|
            #![trigger b64_of(pt), aes_cbc_enc(derived_key(ss), derived_iv(ss), text.spec_bytes())]
            {
                &&& ss.len() == 32
                &&& pt.len() == 65
                &&& ct@ == b64_of(pt) + seq!['.'] + b64_of(
                    aes_cbc_enc(derived_key(ss), derived_iv(ss), text.spec_bytes()),
                )
                &&& b64_decode_of(b64_of(pt)) == Some(pt)
                &&& b64_decode_of(
                    b64_of(aes_cbc_enc(derived_key(ss), derived_iv(ss), text.spec_bytes())),
                ) == Some(aes_cbc_enc(derived_key(ss), derived_iv(ss), text.spec_bytes()))
                &&& aes_cbc_enc(derived_key(ss), derived_iv(ss), text.spec_bytes()).len() == (
                text.spec_bytes().len() / 16 + 1) * 16
                &&& hybrid_open_spec(
                    ss,
                    aes_cbc_enc(derived_key(ss), derived_iv(ss), text.spec_bytes()),
                ) == Ok::<Seq<char>, CryptoError>(text@)
            },
{
    let ephemeral = match ecdh_ephemeral_for_pem(public_key_pem) {
        Some(v) => v,
        None => { return Err(CryptoError::KeyParseError) },
    };
    let out = ecc_encrypt_with_secret(text, ephemeral.1.as_slice(), ephemeral.0.as_slice());
    proof {
        let ss = ephemeral.1@;
        let pt = ephemeral.0@;
        let payload = aes_cbc_enc(derived_key(ss), derived_iv(ss), text.spec_bytes());
        assert(ss.len() == 32 && pt.len() == 65 && out@ == b64_of(pt) + seq!['.'] + b64_of(
            payload,
        ) && b64_decode_of(b64_of(pt)) == Some(pt) && b64_decode_of(b64_of(payload)) == Some(
            payload,
        ) && payload.len() == (text.spec_bytes().len() / 16 + 1) * 16 && hybrid_open_spec(
            ss,
            payload,
        ) == Ok::<Seq<char>, CryptoError>(text@));
    }
    Ok(out)
}

/// The decode-parse-agree-open chain on the two parts of a composite.
fn ecc_decrypt_parts(part1: &str, part2: &str, private_key_pem: &str) -> (r: Result<
    String,
    CryptoError,
>)
    ensures
        hybrid_decrypt_post(res_view(r), part1@, part2@, private_key_pem@),
{
    let point_bytes = match base64_decode_str(part1) {
        Some(b) => b,
        None => { return Err(CryptoError::EncodingError) },
    };
    let data = match base64_decode_str(part2) {
        Some(b) => b,
        None => { return Err(CryptoError::EncodingError) },
    };
    let shared = match ecdh_agree_pem(private_key_pem, point_bytes.as_slice()) {
        Some(ss) => ss,
        None => { return Err(CryptoError::KeyParseError) },
    };
    ecc_decrypt_with_secret(data.as_slice(), shared.as_slice())
}

/// Decrypts a hybrid composite ciphertext with the recipient's P-256
/// private key. Fails with `InvalidFormat` exactly when the input does not
/// split on `.` into exactly two parts; otherwise the parts are decoded,
/// the ephemeral key parsed, the shared secret agreed, and the payload
/// opened.
pub fn ecc_decrypt(encrypted_text: &str, private_key_pem: &str) -> (r: Result<String, CryptoError>)
    ensures
        count_dots(encrypted_text@) != 1 <==> r == Err::<String, CryptoError>(
            CryptoError::InvalidFormat,
        ),
        count_dots(encrypted_text@) == 1 ==> forall|i: int|
            0 <= i < encrypted_text@.len() && #[trigger] encrypted_text@[i] == '.'
                ==> hybrid_decrypt_post(
                res_view(r),
                encrypted_text@.subrange(0, i),
                encrypted_text@.subrange(i + 1, encrypted_text@.len() as int),
                private_key_pem@,
            ),
{
    let ghost s = encrypted_text@;
    let n = encrypted_text.unicode_len();
    let mut dot_idx: usize = 0;
    let mut found: bool = false;
    let mut count: usize = 0;
    let mut i: usize = 0;
    proof {
        assert(s.take(0) =~= Seq::<char>::empty());
    }
    while i < n
        invariant
            i <= n,
            n == s.len(),
            s == encrypted_text@,
            count == count_dots(s.take(i as int)),
            count <= i,
            !found ==> count == 0 && (forall|j: int| 0 <= j < i ==> s[j] != '.'),
            found ==> dot_idx < i && s[dot_idx as int] == '.' && count >= 1,
            (found && count == 1) ==> (forall|j: int|
                0 <= j < i && j != dot_idx ==> s[j] != '.'),
        decreases n - i,
    {
        let c = encrypted_text.get_char(i);
        proof {
            assert(s.take(i + 1).drop_last() =~= s.take(i as int));
            assert(s.take(i + 1).last() == s[i as int]);
        }
        if c == '.' {
            if !found {
                dot_idx = i;
                found = true;
            }
            count = count + 1;
        }
        i = i + 1;
    }
    proof {
        assert(s.take(n as int) =~= s);
    }
    if count != 1 {
        return Err(CryptoError::InvalidFormat);
    }
    let part1 = encrypted_text.substring_char(0, dot_idx);
    let part2 = encrypted_text.substring_char(dot_idx + 1, n);
    let r = ecc_decrypt_parts(part1, part2, private_key_pem);
    proof {
        lemma_post_not_invalid_format(
            res_view(r),
            part1@,
            part2@,
            private_key_pem@,
        );
        assert forall|j: int| 0 <= j < s.len() && #[trigger] s[j] == '.' implies
            hybrid_decrypt_post(
            res_view(r),
            s.subrange(0, j),
            s.subrange(j + 1, s.len() as int),
            private_key_pem@,
        ) by {
            assert(j == dot_idx);
            assert(s.subrange(0, j) == part1@);
            assert(s.subrange(j + 1, s.len() as int) == part2@);
        }
    }
    r
}

} // verus!

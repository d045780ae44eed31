//! A multi-algorithm cryptographic utility core: AES-256-CBC symmetric
//! encryption, RSA PKCS#1 v1.5 asymmetric encryption, a hybrid ECDH (P-256)
//! scheme, MD5/SHA-256/SHA-512 hashing, and Base64/hex/URL text codecs.
//! Every operation is a stateless function from plain inputs to a result
//! string or a typed [`errors::CryptoError`].

pub mod codec;
pub mod errors;
pub mod hashes;
pub mod hexcode;
pub mod hybrid;
pub mod keygen;
pub mod rsa_cipher;
pub mod strutil;
pub mod symmetric;

pub use codec::{base64_decode, base64_encode, url_decode, url_encode};
pub use errors::CryptoError;
pub use hashes::{md5_hash, sha256_hash, sha512_hash};
pub use hexcode::{hex_decode, hex_encode};
pub use hybrid::{derive_key_from_shared_secret, ecc_decrypt, ecc_encrypt, generate_ecc_keypair,
    EccKeyPair};
pub use keygen::{generate_aes_iv, generate_aes_key, generate_random_key};
pub use rsa_cipher::{generate_rsa_keypair, rsa_decrypt, rsa_encrypt, RsaKeyPair};
pub use symmetric::{aes_decrypt, aes_encrypt};

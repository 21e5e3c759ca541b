//! A single-shot cryptographic pipeline: a secret scalar is derived from a
//! seed by hashing, the matching public point and a Diffie-Hellman shared
//! secret are computed on Curve25519, and the shared secret keys a
//! misuse-resistant authenticated cipher (AES-128-SIV) for one encrypt or
//! decrypt transform.

pub mod cipher;
pub mod dh;
pub mod errors;
pub mod hexcode;
pub mod kdf;
pub mod pipeline;

pub use cipher::{decrypt, encrypt, round_trip, siv_ciphertext_of};
pub use dh::{
    agree, agree_symmetric, parse_public, public_from_secret, public_key_of, read_pk,
    shared_secret_of, PublicPoint, SharedSecret,
};
pub use errors::CryptError;
pub use hexcode::{hex_decode, hex_decoded, valid_hex};
pub use kdf::{derive_secret, generate_sk, sha256_of, SecretScalar};
pub use pipeline::{decrypt_command, dh_get_key, encrypt_command};

use crate::errors::CryptError;
use crate::hexcode::{hex_decode, hex_decoded, valid_hex};
use vstd::prelude::*;

verus! {

/// The SHA-256 digest of a byte string, by name; the digest is a pure
/// function of the input bytes and is 32 bytes long.
pub uninterp spec fn sha256_of(data: Seq<u8>) -> Seq<u8>;

/// Relies on sha2::Sha256 through Digest::digest: the digest depends on the
/// input bytes alone, and is 32 bytes long.
#[verifier::external_body]
fn sha256(data: &Vec<u8>) -> (r: [u8; 32])
    ensures
        r@ == sha256_of(data@),
{
    let digest = <sha2::Sha256 as sha2::Digest>::digest(data.as_slice());
    digest.into()
}

/// A 32-byte secret scalar for the curve: the SHA-256 digest of a seed,
/// stored as raw bytes. The curve-mandated clamping is applied by the scalar
/// multiplications that consume it, not here. It lives only within one
/// invocation and is never written out.
#[derive(Clone, Copy)]
pub struct SecretScalar {
    pub bytes: [u8; 32],
}

impl View for SecretScalar {
    type V = Seq<u8>;

    open spec fn view(&self) -> Seq<u8> {
        self.bytes@
    }
}

/// Derive the secret scalar from a seed of any length, empty included:
/// the scalar is exactly the SHA-256 digest of the seed bytes.
pub fn derive_secret(seed: &Vec<u8>) -> (r: SecretScalar)
    ensures
        r@ == sha256_of(seed@),
{
    SecretScalar { bytes: sha256(seed) }
}

/// Determinism of the derivation: any two derived scalars whose bytes come
/// from the same seed are identical. `derive_secret` pins its result to
/// `sha256_of` of the seed, so two calls on one seed cannot differ.
pub proof fn lemma_derive_secret_deterministic(seed: Seq<u8>, a: Seq<u8>, b: Seq<u8>)
    requires
        a == sha256_of(seed),
        b == sha256_of(seed),
    ensures
        a == b,
{
}

/// Derive the secret scalar from a hex-encoded seed: decode the text, then
/// hash. Fails with `InvalidHex` exactly when the text is malformed.
pub fn generate_sk(seed_hex: &Vec<u8>) -> (r: Result<SecretScalar, CryptError>)
    ensures
        valid_hex(seed_hex@) ==> (r matches Ok(sk) && sk@ == sha256_of(hex_decoded(seed_hex@))),
        !valid_hex(seed_hex@) ==> r == Err::<SecretScalar, CryptError>(CryptError::InvalidHex),
{
    match hex_decode(seed_hex) {
        Ok(seed) => Ok(derive_secret(&seed)),
        Err(e) => Err(e),
    }
}

} // verus!

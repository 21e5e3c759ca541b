use crate::errors::CryptError;
use crate::hexcode::{hex_decode, hex_decoded, valid_hex};
use crate::kdf::SecretScalar;
use vstd::prelude::*;

verus! {

/// The X25519 public point of a 32-byte secret scalar, by name: the encoding
/// of the clamped scalar times the curve's base point, a pure function of the
/// scalar bytes.
pub uninterp spec fn public_key_of(sk: Seq<u8>) -> Seq<u8>;

/// The X25519 Diffie-Hellman output for a 32-byte secret scalar and a 32-byte
/// public point, by name: a pure function of the two encodings.
pub uninterp spec fn shared_secret_of(sk: Seq<u8>, pk: Seq<u8>) -> Seq<u8>;

/// A 32-byte encoding of a point on Curve25519. Any 32-byte value is accepted
/// as a remote point: the X25519 function is total over encodings, low-order
/// points included, and this tool deliberately adds no point validation.
#[derive(Clone, Copy)]
pub struct PublicPoint {
    pub bytes: [u8; 32],
}

impl View for PublicPoint {
    type V = Seq<u8>;

    open spec fn view(&self) -> Seq<u8> {
        self.bytes@
    }
}

/// The 32-byte X25519 shared secret of a local scalar and a remote point,
/// used as-is as the symmetric key material of the cipher.
#[derive(Clone, Copy)]
pub struct SharedSecret {
    pub bytes: [u8; 32],
}

impl View for SharedSecret {
    type V = Seq<u8>;

    open spec fn view(&self) -> Seq<u8> {
        self.bytes@
    }
}

/// Relies on x25519_dalek::PublicKey::from(&StaticSecret): it multiplies the
/// base point by the clamped scalar, a function of the secret bytes alone.
#[verifier::external_body]
fn x25519_base_mul(sk: &[u8; 32]) -> (r: [u8; 32])
    ensures
        r@ == public_key_of(sk@),
{
    let secret = x25519_dalek::StaticSecret::from(*sk);
    x25519_dalek::PublicKey::from(&secret).to_bytes()
}

/// Relies on x25519_dalek::StaticSecret::diffie_hellman: it multiplies the
/// remote point by the clamped local scalar, a function of the two byte
/// strings alone. The second clause is the symmetry of the X25519 function:
/// when the remote point is itself derived from a scalar, both parties'
/// multiplications reach the same point, namely both clamped scalars times
/// the base point.
#[verifier::external_body]
fn x25519_diffie_hellman(sk: &[u8; 32], pk: &[u8; 32]) -> (r: [u8; 32])
    ensures
        r@ == shared_secret_of(sk@, pk@),
        forall|other: Seq<u8>|
            pk@ == #[trigger] public_key_of(other) ==> r@ == shared_secret_of(
                other,
                public_key_of(sk@),
            ),
{
    let secret = x25519_dalek::StaticSecret::from(*sk);
    let public = x25519_dalek::PublicKey::from(*pk);
    secret.diffie_hellman(&public).to_bytes()
}

/// Compute the public point of a secret scalar (scalar times base point).
pub fn public_from_secret(sk: &SecretScalar) -> (r: PublicPoint)
    ensures
        r@ == public_key_of(sk@),
{
    PublicPoint { bytes: x25519_base_mul(&sk.bytes) }
}

/// Copy a 32-byte vector into an array.
fn to_array_32(v: &Vec<u8>) -> (r: [u8; 32])
    requires
        v@.len() == 32,
    ensures
        r@ == v@,
{
    let mut arr = [0u8; 32];
    let mut i: usize = 0;
    while i < 32
        invariant
            v@.len() == 32,
            i <= 32,
            forall|j: int| 0 <= j < i ==> arr@[j] == v@[j],
        decreases 32 - i,
    {
        arr[i] = v[i];
        i = i + 1;
    }
    proof {
        assert(arr@ =~= v@);
    }
    arr
}

/// Accept an externally supplied point encoding. Succeeds on every 32-byte
/// value, keeping the encoded bytes; fails with `InvalidLength` on any other
/// length.
pub fn parse_public(bytes: &Vec<u8>) -> (r: Result<PublicPoint, CryptError>)
    ensures
        bytes@.len() == 32 ==> (r matches Ok(pk) && pk@ == bytes@),
        bytes@.len() != 32 ==> r == Err::<PublicPoint, CryptError>(CryptError::InvalidLength),
{
    if bytes.len() == 32 {
        Ok(PublicPoint { bytes: to_array_32(bytes) })
    } else {
        Err(CryptError::InvalidLength)
    }
}

/// Read a remote public point from hex-encoded text: decode, then check the
/// length. Fails with `InvalidHex` on malformed text and with `InvalidLength`
/// when the decoded value is not exactly 32 bytes.
pub fn read_pk(pubkey_hex: &Vec<u8>) -> (r: Result<PublicPoint, CryptError>)
    ensures
        !valid_hex(pubkey_hex@) ==> r == Err::<PublicPoint, CryptError>(CryptError::InvalidHex),
        valid_hex(pubkey_hex@) && hex_decoded(pubkey_hex@).len() != 32 ==> r == Err::<
            PublicPoint,
            CryptError,
        >(CryptError::InvalidLength),
        valid_hex(pubkey_hex@) && hex_decoded(pubkey_hex@).len() == 32 ==> (r matches Ok(pk)
            && pk@ == hex_decoded(pubkey_hex@)),
{
    match hex_decode(pubkey_hex) {
        Ok(bytes) => parse_public(&bytes),
        Err(e) => Err(e),
    }
}

/// Key agreement: the local scalar times the remote point, encoded as 32
/// bytes. When the remote point is the public point of some scalar `b`, the
/// result equals what the holder of `b` computes from the local public point.
pub fn agree(sk: &SecretScalar, pk: &PublicPoint) -> (r: SharedSecret)
    ensures
        r@ == shared_secret_of(sk@, pk@),
        forall|other: Seq<u8>|
            pk@ == #[trigger] public_key_of(other) ==> r@ == shared_secret_of(
                other,
                public_key_of(sk@),
            ),
{
    SharedSecret { bytes: x25519_diffie_hellman(&sk.bytes, &pk.bytes) }
}

/// ECDH symmetry law: for any two secret scalars, agreeing with the other
/// party's public point yields the same shared secret on both sides, byte for
/// byte. The pair holds the two sides' results, proved equal.
pub fn agree_symmetric(a: &SecretScalar, b: &SecretScalar) -> (r: (SharedSecret, SharedSecret))
    ensures
        r.0@ == shared_secret_of(a@, public_key_of(b@)),
        r.1@ == shared_secret_of(b@, public_key_of(a@)),
        r.0@ == r.1@,
{
    let pk_a = public_from_secret(a);
    let pk_b = public_from_secret(b);
    let ab = agree(a, &pk_b);
    let ba = agree(b, &pk_a);
    (ab, ba)
}

} // verus!

use crate::cipher::{decrypt, encrypt, siv_ciphertext_of};
use crate::dh::{agree, read_pk, shared_secret_of, SharedSecret};
use crate::errors::CryptError;
use crate::hexcode::{hex_decode, hex_decoded, valid_hex};
use crate::kdf::{generate_sk, sha256_of};
use vstd::prelude::*;

verus! {

/// Both hex texts are well formed and the decoded public key has the exact
/// point-encoding length.
pub open spec fn key_material_ok(seed_hex: Seq<u8>, pubkey_hex: Seq<u8>) -> bool {
    valid_hex(seed_hex) && valid_hex(pubkey_hex) && hex_decoded(pubkey_hex).len() == 32
}

/// The shared secret that a seed and a remote public key, both given as hex
/// text, lead to: hash the decoded seed to a scalar, then agree with the
/// decoded point.
pub open spec fn agreed_key_of(seed_hex: Seq<u8>, pubkey_hex: Seq<u8>) -> Seq<u8> {
    shared_secret_of(sha256_of(hex_decoded(seed_hex)), hex_decoded(pubkey_hex))
}

/// Build the symmetric key material for one invocation: derive the local
/// scalar from the hex seed, read the remote point from hex, and agree.
/// The seed is examined first, as the errors report: a malformed seed wins
/// over a malformed public key.
pub fn dh_get_key(seed_hex: &Vec<u8>, pubkey_hex: &Vec<u8>) -> (r: Result<
    SharedSecret,
    CryptError,
>)
    ensures
        key_material_ok(seed_hex@, pubkey_hex@) ==> (r matches Ok(k) && k@ == agreed_key_of(
            seed_hex@,
            pubkey_hex@,
        )),
        !valid_hex(seed_hex@) ==> r == Err::<SharedSecret, CryptError>(CryptError::InvalidHex),
        valid_hex(seed_hex@) && !valid_hex(pubkey_hex@) ==> r == Err::<SharedSecret, CryptError>(
            CryptError::InvalidHex,
        ),
        valid_hex(seed_hex@) && valid_hex(pubkey_hex@) && hex_decoded(pubkey_hex@).len() != 32
            ==> r == Err::<SharedSecret, CryptError>(CryptError::InvalidLength),
{
    let sk = match generate_sk(seed_hex) {
        Ok(sk) => sk,
        Err(e) => {
            return Err(e);
        },
    };
    let pk = match read_pk(pubkey_hex) {
        Ok(pk) => pk,
        Err(e) => {
            return Err(e);
        },
    };
    Ok(agree(&sk, &pk))
}

/// The whole encrypt invocation on hex inputs: build the key material from
/// seed and remote public key, decode the plaintext, encrypt. Each input is
/// checked in the order the tool reads them: seed, public key, data.
pub fn encrypt_command(seed_hex: &Vec<u8>, pubkey_hex: &Vec<u8>, data_hex: &Vec<u8>) -> (r: Result<
    Vec<u8>,
    CryptError,
>)
    ensures
        key_material_ok(seed_hex@, pubkey_hex@) && valid_hex(data_hex@) ==> (r matches Ok(c)
            && c@ == siv_ciphertext_of(
            agreed_key_of(seed_hex@, pubkey_hex@),
            hex_decoded(data_hex@),
        ) && c@.len() == hex_decoded(data_hex@).len() + 16),
        !valid_hex(seed_hex@) ==> r == Err::<Vec<u8>, CryptError>(CryptError::InvalidHex),
        valid_hex(seed_hex@) && !valid_hex(pubkey_hex@) ==> r == Err::<Vec<u8>, CryptError>(
            CryptError::InvalidHex,
        ),
        valid_hex(seed_hex@) && valid_hex(pubkey_hex@) && hex_decoded(pubkey_hex@).len() != 32
            ==> r == Err::<Vec<u8>, CryptError>(CryptError::InvalidLength),
        key_material_ok(seed_hex@, pubkey_hex@) && !valid_hex(data_hex@) ==> r == Err::<
            Vec<u8>,
            CryptError,
        >(CryptError::InvalidHex),
{
    let key = match dh_get_key(seed_hex, pubkey_hex) {
        Ok(k) => k,
        Err(e) => {
            return Err(e);
        },
    };
    let data = match hex_decode(data_hex) {
        Ok(d) => d,
        Err(e) => {
            return Err(e);
        },
    };
    Ok(encrypt(&key, &data))
}

/// The whole decrypt invocation on hex inputs: build the key material,
/// decode the ciphertext, decrypt and authenticate. Inputs are checked in
/// the order seed, public key, data; a well-formed but too-short ciphertext
/// fails with `MalformedCiphertext`, an unauthentic one with
/// `AuthenticationFailure`.
pub fn decrypt_command(seed_hex: &Vec<u8>, pubkey_hex: &Vec<u8>, data_hex: &Vec<u8>) -> (r: Result<
    Vec<u8>,
    CryptError,
>)
    ensures
        !valid_hex(seed_hex@) ==> r == Err::<Vec<u8>, CryptError>(CryptError::InvalidHex),
        valid_hex(seed_hex@) && !valid_hex(pubkey_hex@) ==> r == Err::<Vec<u8>, CryptError>(
            CryptError::InvalidHex,
        ),
        valid_hex(seed_hex@) && valid_hex(pubkey_hex@) && hex_decoded(pubkey_hex@).len() != 32
            ==> r == Err::<Vec<u8>, CryptError>(CryptError::InvalidLength),
        key_material_ok(seed_hex@, pubkey_hex@) && !valid_hex(data_hex@) ==> r == Err::<
            Vec<u8>,
            CryptError,
        >(CryptError::InvalidHex),
        key_material_ok(seed_hex@, pubkey_hex@) && valid_hex(data_hex@) && hex_decoded(
            data_hex@,
        ).len() < 16 ==> r == Err::<Vec<u8>, CryptError>(CryptError::MalformedCiphertext),
        key_material_ok(seed_hex@, pubkey_hex@) && valid_hex(data_hex@) ==> (r matches Ok(p)
            ==> hex_decoded(data_hex@) == siv_ciphertext_of(
            agreed_key_of(seed_hex@, pubkey_hex@),
            p@,
        )),
        key_material_ok(seed_hex@, pubkey_hex@) && valid_hex(data_hex@) ==> forall|p: Seq<u8>|
            hex_decoded(data_hex@) == #[trigger] siv_ciphertext_of(
                agreed_key_of(seed_hex@, pubkey_hex@),
                p,
            ) && hex_decoded(data_hex@).len() == p.len() + 16 ==> (r matches Ok(q) && q@ == p),
{
    let key = match dh_get_key(seed_hex, pubkey_hex) {
        Ok(k) => k,
        Err(e) => {
            return Err(e);
        },
    };
    let data = match hex_decode(data_hex) {
        Ok(d) => d,
        Err(e) => {
            return Err(e);
        },
    };
    decrypt(&key, &data)
}

} // verus!

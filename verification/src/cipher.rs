use crate::dh::SharedSecret;
use crate::errors::CryptError;
use vstd::prelude::*;

verus! {

/// The error type of the aes_siv crate, declared so that the trusted
/// wrappers below can return it; verified code maps it to `CryptError`.
#[verifier::external_type_specification]
#[verifier::external_body]
pub struct ExAeadError(aes_siv::Error);

/// The AES-128-SIV ciphertext for a 32-byte key and a plaintext, under the
/// fixed associated-data set of exactly one empty component, by name: the
/// construction is deterministic, so the ciphertext is a pure function of key
/// and plaintext. Its first 16 bytes are the synthetic IV, the rest the
/// encrypted payload.
pub uninterp spec fn siv_ciphertext_of(key: Seq<u8>, plaintext: Seq<u8>) -> Seq<u8>;

/// Relies on aes_siv::siv::Aes128Siv, its KeyInit::new and Siv::encrypt, with
/// one empty header component: the output is the 16-byte synthetic IV
/// followed by the encrypted payload of the plaintext's length, and with a
/// single header component (far under the 126 allowed) encrypt never errors.
#[verifier::external_body]
fn siv_encrypt(key: &[u8; 32], plaintext: &Vec<u8>) -> (r: Result<Vec<u8>, aes_siv::Error>)
    ensures
        r is Ok,
        r matches Ok(c) ==> c@ == siv_ciphertext_of(key@, plaintext@) && c@.len() == plaintext@.len()
            + 16,
{
    let mut cipher = <aes_siv::siv::Aes128Siv as aes_siv::KeyInit>::new(&(*key).into());
    let header: [&[u8]; 1] = [&[]];
    cipher.encrypt(&header, plaintext.as_slice())
}

/// Relies on aes_siv::siv::Aes128Siv, its KeyInit::new and Siv::decrypt, with
/// one empty header component. Decryption reverses the keystream and accepts
/// exactly when the recomputed synthetic IV matches the prefix, so an `Ok`
/// plaintext re-encrypts to the given ciphertext, and the encryption of any
/// plaintext decrypts back to it; anything else is rejected.
#[verifier::external_body]
fn siv_decrypt(key: &[u8; 32], ciphertext: &Vec<u8>) -> (r: Result<Vec<u8>, aes_siv::Error>)
    ensures
        r matches Ok(p) ==> ciphertext@ == siv_ciphertext_of(key@, p@) && p@.len() + 16
            == ciphertext@.len(),
        r matches Ok(q) ==> forall|p: Seq<u8>|
            ciphertext@ == #[trigger] siv_ciphertext_of(key@, p) ==> q@ == p,
        r is Err ==> forall|p: Seq<u8>| ciphertext@ != #[trigger] siv_ciphertext_of(key@, p),
{
    let mut cipher = <aes_siv::siv::Aes128Siv as aes_siv::KeyInit>::new(&(*key).into());
    let header: [&[u8]; 1] = [&[]];
    cipher.decrypt(&header, ciphertext.as_slice())
}

/// Authenticated encryption under the shared secret, with the fixed
/// associated-data set of one empty component. Deterministic; the output is
/// the 16-byte synthetic IV followed by the encrypted payload, so it is
/// always exactly 16 bytes longer than the plaintext. Succeeds on every
/// plaintext, the empty one included.
pub fn encrypt(key: &SharedSecret, plaintext: &Vec<u8>) -> (r: Vec<u8>)
    ensures
        r@ == siv_ciphertext_of(key@, plaintext@),
        r@.len() == plaintext@.len() + 16,
{
    match siv_encrypt(&key.bytes, plaintext) {
        Ok(c) => c,
        Err(_) => {
            proof {
                assert(false);
            }
            Vec::new()
        },
    }
}

/// Authenticated decryption under the shared secret. Fails with
/// `MalformedCiphertext` exactly when the input is shorter than the 16-byte
/// synthetic-IV prefix; otherwise it accepts exactly the encryptions under
/// this key, returning the matching plaintext, and fails with
/// `AuthenticationFailure` on everything else, releasing no bytes.
pub fn decrypt(key: &SharedSecret, ciphertext: &Vec<u8>) -> (r: Result<Vec<u8>, CryptError>)
    ensures
        ciphertext@.len() < 16 ==> r == Err::<Vec<u8>, CryptError>(CryptError::MalformedCiphertext),
        r matches Ok(p) ==> ciphertext@ == siv_ciphertext_of(key@, p@) && p@.len() + 16
            == ciphertext@.len(),
        forall|p: Seq<u8>|
            ciphertext@ == #[trigger] siv_ciphertext_of(key@, p) && ciphertext@.len() == p.len()
                + 16 ==> (r matches Ok(q) && q@ == p),
        r matches Err(e) ==> (e == CryptError::MalformedCiphertext || e
            == CryptError::AuthenticationFailure),
        r matches Err(e) && e == CryptError::MalformedCiphertext ==> ciphertext@.len() < 16,
        r matches Err(e) && e == CryptError::AuthenticationFailure ==> ciphertext@.len() >= 16,
{
    if ciphertext.len() < 16 {
        return Err(CryptError::MalformedCiphertext);
    }
    match siv_decrypt(&key.bytes, ciphertext) {
        Ok(p) => Ok(p),
        Err(_) => Err(CryptError::AuthenticationFailure),
    }
}

/// Round-trip law: under any key, decrypting an encryption of any plaintext
/// (with the fixed associated-data set) gives back that plaintext exactly.
pub fn round_trip(key: &SharedSecret, plaintext: &Vec<u8>) -> (r: Vec<u8>)
    ensures
        r@ == plaintext@,
{
    let ciphertext = encrypt(key, plaintext);
    match decrypt(key, &ciphertext) {
        Ok(p) => p,
        Err(_) => {
            proof {
                assert(false);
            }
            Vec::new()
        },
    }
}

} // verus!

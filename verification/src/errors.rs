use vstd::prelude::*;

verus! {

/// The failures of the pipeline. Every one is terminal for the invocation
/// that hit it: no retry, no fallback, no partial output.
#[derive(Clone, Copy, Debug, PartialEq, Eq, Structural)]
pub enum CryptError {
    /// Malformed hexadecimal text at a text/byte boundary.
    InvalidHex,
    /// A decoded public key is not exactly 32 bytes.
    InvalidLength,
    /// A ciphertext shorter than the 16-byte synthetic-IV prefix.
    MalformedCiphertext,
    /// The synthetic IV recomputed during decryption does not match the
    /// prefix: the ciphertext is tampered or keyed differently.
    AuthenticationFailure,
}

} // verus!

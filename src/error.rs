use vstd::prelude::*;

verus! {

/// The ways sealing or opening a record can fail.
#[derive(Debug, Clone, Copy, PartialEq, Eq, Structural)]
pub enum CryptoError {
    /// The envelope is too short, or its length prefix points past its end.
    MalformedEnvelope,
    /// The stored credential cannot be decoded as a password hash.
    AuthFormatError,
    /// The credential is well formed, but the password does not match it.
    WrongPassword,
    /// The authentication tag did not check: the ciphertext was altered or damaged.
    IntegrityError,
    /// The memory-hard function refused its inputs (an over-long password).
    KeyDerivationFailure,
    /// The cipher refused the plaintext (longer than AES-GCM allows).
    EncryptionFailure,
}

} // verus!

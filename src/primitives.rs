//! The calls into argon2 and aes-gcm, each with the contract the library relies on.

use aes_gcm::aead::{Aead, AeadCore, KeyInit, OsRng};
use aes_gcm::{Aes256Gcm, Key, Nonce};
use argon2::password_hash::{PasswordHash, PasswordHasher, PasswordVerifier, SaltString};
use argon2::Argon2;
use vstd::prelude::*;
use vstd::string::StringSliceAdditionalSpecFns;

verus! {

/// Largest password, in bytes, that Argon2 accepts.
pub const PASSWORD_MAX: u64 = 0xffff_ffff;

/// Largest plaintext, in bytes, that AES-GCM encrypts.
pub const PLAINTEXT_MAX: u64 = 0x10_0000_0000;

/// Bytes of authentication tag that AES-GCM appends to the ciphertext.
pub const TAG_LENGTH: usize = 16;

/// What Argon2 (default parameters) says of `password` against the PHC string
/// `credential`: `None` where the string does not parse as a password hash,
/// else whether the password matches it.
pub uninterp spec fn argon2_verdict(password: Seq<u8>, credential: Seq<u8>) -> Option<bool>;

/// The 32 bytes that Argon2 (default parameters) derives from `password` and `salt`.
pub uninterp spec fn argon2_key_bytes(password: Seq<u8>, salt: Seq<u8>) -> Seq<u8>;

/// Ciphertext followed by tag: AES-256-GCM of `plaintext` under `key` and
/// `nonce`, with no associated data.
pub uninterp spec fn gcm_sealed(key: Seq<u8>, nonce: Seq<u8>, plaintext: Seq<u8>) -> Seq<u8>;

/// Whether `b` is a character of the B64 alphabet: `A-Z`, `a-z`, `0-9`, `+`, `/`.
pub open spec fn is_b64_byte(b: u8) -> bool {
    (65 <= b <= 90) || (97 <= b <= 122) || (48 <= b <= 57) || b == 43 || b == 47
}

/// Relies on password_hash's `SaltString::generate` over `OsRng`: sixteen random
/// bytes, written as twenty-two characters of unpadded B64.
#[verifier::external_body]
pub(crate) fn fresh_salt() -> (r: Vec<u8>)
    ensures
        r@.len() == 22,
        forall|i: int| 0 <= i < r@.len() ==> is_b64_byte(#[trigger] r@[i]),
{
    SaltString::generate(&mut OsRng).as_str().as_bytes().to_vec()
}

/// Relies on aes_gcm's `AeadCore::generate_nonce` over `OsRng`: a random 96-bit nonce.
#[verifier::external_body]
pub(crate) fn fresh_nonce() -> (r: Vec<u8>)
    ensures
        r@.len() == 12,
{
    Aes256Gcm::generate_nonce(&mut OsRng).to_vec()
}

/// Relies on argon2's `PasswordHasher::hash_password` (default parameters, salt
/// from `SaltString::generate`): the PHC string it returns parses, and verifies
/// against the password it was made from; its identifier, parameters, salt and
/// output are each capped (32, 127, 64 and 86 characters), so it stays short;
/// it fails only on a password over `PASSWORD_MAX` bytes.
#[verifier::external_body]
pub(crate) fn argon2_credential(password: &str) -> (r: Result<Vec<u8>, ()>)
    ensures
        match r {
            Ok(c) => argon2_verdict(password.spec_bytes(), c@) == Some(true) && c@.len() <= 1024,
            Err(_) => true,
        },
        r is Ok <==> password.spec_bytes().len() <= PASSWORD_MAX,
{
    let salt = SaltString::generate(&mut OsRng);
    match Argon2::default().hash_password(password.as_bytes(), &salt) {
        Ok(h) => Ok(h.to_string().into_bytes()),
        Err(_) => Err(()),
    }
}

/// Relies on argon2's `PasswordHash::new` and `PasswordVerifier::verify_password`:
/// an error where the bytes are not a PHC string, else whether the password
/// matches; a function of the two arguments alone.
#[verifier::external_body]
pub(crate) fn argon2_check(password: &str, credential: &[u8]) -> (r: Result<bool, ()>)
    ensures
        match r {
            Ok(b) => argon2_verdict(password.spec_bytes(), credential@) == Some(b),
            Err(_) => argon2_verdict(password.spec_bytes(), credential@) == None::<bool>,
        },
{
    let text = std::str::from_utf8(credential).map_err(|_| ())?;
    let parsed = PasswordHash::new(text).map_err(|_| ())?;
    Ok(Argon2::default().verify_password(password.as_bytes(), &parsed).is_ok())
}

/// Relies on argon2's `Argon2::hash_password_into` (default parameters) into 32
/// bytes: it fails only where the password is over `PASSWORD_MAX` bytes or the
/// salt is under eight bytes or over `u32::MAX`.
#[verifier::external_body]
pub(crate) fn argon2_key(password: &str, salt: &[u8]) -> (r: Result<Vec<u8>, ()>)
    ensures
        match r {
            Ok(k) => k@ == argon2_key_bytes(password.spec_bytes(), salt@) && k@.len() == 32,
            Err(_) => true,
        },
        r is Ok <==> (password.spec_bytes().len() <= PASSWORD_MAX && 8 <= salt@.len()
            <= 0xffff_ffff),
{
    let mut key = vec![0u8; 32];
    match Argon2::default().hash_password_into(password.as_bytes(), salt, &mut key) {
        Ok(()) => Ok(key),
        Err(_) => Err(()),
    }
}

/// Relies on aes_gcm's `Aead::encrypt` for `Aes256Gcm`, with no associated data:
/// the ciphertext is as long as the plaintext and followed by a 16-byte tag; it
/// fails only on a plaintext over `PLAINTEXT_MAX` bytes.
#[verifier::external_body]
pub(crate) fn gcm_encrypt(key: &[u8], nonce: &[u8], plaintext: &[u8]) -> (r: Result<Vec<u8>, ()>)
    requires
        key@.len() == 32,
        nonce@.len() == 12,
    ensures
        match r {
            Ok(c) => c@ == gcm_sealed(key@, nonce@, plaintext@) && c@.len() == plaintext@.len()
                + 16,
            Err(_) => true,
        },
        r is Ok <==> plaintext@.len() <= PLAINTEXT_MAX,
{
    let cipher = Aes256Gcm::new(Key::<Aes256Gcm>::from_slice(key));
    cipher.encrypt(Nonce::from_slice(nonce), plaintext).map_err(|_| ())
}

/// Relies on aes_gcm's `Aead::decrypt` for `Aes256Gcm`, with no associated data:
/// it returns the plaintext exactly where the input is what `encrypt` made of
/// it under the same key and nonce, and fails where the tag does not check; the
/// tag is split off before decrypting in place, so the plaintext is 16 bytes
/// shorter than the input.
#[verifier::external_body]
pub(crate) fn gcm_decrypt(key: &[u8], nonce: &[u8], ciphertext: &[u8]) -> (r: Result<Vec<u8>, ()>)
    requires
        key@.len() == 32,
        nonce@.len() == 12,
    ensures
        forall|p: Seq<u8>|
            p.len() <= PLAINTEXT_MAX && #[trigger] gcm_sealed(key@, nonce@, p) == ciphertext@
                ==> r is Ok && r->Ok_0@ == p,
        match r {
            Ok(v) => gcm_sealed(key@, nonce@, v@) == ciphertext@ && v@.len() + 16
                == ciphertext@.len(),
            Err(_) => true,
        },
{
    let cipher = Aes256Gcm::new(Key::<Aes256Gcm>::from_slice(key));
    cipher.decrypt(Nonce::from_slice(nonce), ciphertext).map_err(|_| ())
}

} // verus!

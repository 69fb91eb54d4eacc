//! Credentials, key derivation, authenticated encryption, and the envelope
//! `len(credential) as u16, big-endian || credential || salt || nonce || ciphertext+tag`.

use crate::bytes::{push_all, push_range, scrub};
use crate::error::CryptoError;
use crate::primitives::{
    argon2_check, argon2_credential, argon2_key, argon2_key_bytes, argon2_verdict, fresh_nonce,
    fresh_salt, gcm_decrypt, gcm_encrypt, gcm_sealed, is_b64_byte, PASSWORD_MAX, PLAINTEXT_MAX,
    TAG_LENGTH,
};
use vstd::prelude::*;
use vstd::string::StringSliceAdditionalSpecFns;

verus! {

/// Bytes of the per-encryption salt.
pub const SALT_LENGTH: usize = 22;

/// Bytes of the AES-GCM nonce.
pub const NONCE_LENGTH: usize = 12;

/// Bytes of the big-endian length that precedes the credential.
pub const PREFIX_LENGTH: usize = 2;

/// Fewest bytes an encrypted payload can have: salt, nonce and tag.
pub const MIN_PAYLOAD_LENGTH: usize = SALT_LENGTH + NONCE_LENGTH + TAG_LENGTH;

/// Fewest bytes an envelope can have: prefix, empty credential, and payload.
pub const MIN_ENVELOPE_LENGTH: usize = PREFIX_LENGTH + MIN_PAYLOAD_LENGTH;

/// Longest credential the two-byte prefix can describe.
pub const CREDENTIAL_MAX: usize = 0xffff;

/// The same result with each byte vector seen as a sequence.
pub open spec fn bytes_result(r: Result<Vec<u8>, CryptoError>) -> Result<Seq<u8>, CryptoError> {
    match r {
        Ok(v) => Ok(v@),
        Err(e) => Err(e),
    }
}

/// The salt of an encrypted payload.
pub open spec fn payload_salt(payload: Seq<u8>) -> Seq<u8> {
    payload.subrange(0, SALT_LENGTH as int)
}

/// The nonce of an encrypted payload.
pub open spec fn payload_nonce(payload: Seq<u8>) -> Seq<u8> {
    payload.subrange(SALT_LENGTH as int, (SALT_LENGTH + NONCE_LENGTH) as int)
}

/// The ciphertext and tag of an encrypted payload.
pub open spec fn payload_body(payload: Seq<u8>) -> Seq<u8> {
    payload.subrange((SALT_LENGTH + NONCE_LENGTH) as int, payload.len() as int)
}

/// `payload` is `salt || nonce || AES-GCM(plaintext)` under the key that Argon2
/// derives from `password` and that salt; the salt is B64 text.
pub open spec fn payload_seals(payload: Seq<u8>, password: Seq<u8>, plaintext: Seq<u8>) -> bool {
    &&& payload.len() == SALT_LENGTH + NONCE_LENGTH + plaintext.len() + TAG_LENGTH
    &&& forall|i: int| 0 <= i < SALT_LENGTH ==> is_b64_byte(#[trigger] payload[i])
    &&& password.len() <= PASSWORD_MAX
    &&& plaintext.len() <= PLAINTEXT_MAX
    &&& payload_body(payload) == gcm_sealed(
        argon2_key_bytes(password, payload_salt(payload)),
        payload_nonce(payload),
        plaintext,
    )
}

/// What decrypting `payload` with `password` returns: every plaintext that the
/// payload's ciphertext is an encryption of comes back, and nothing else does;
/// a plaintext is always `MIN_PAYLOAD_LENGTH` bytes shorter than its payload.
pub open spec fn payload_opens(
    payload: Seq<u8>,
    password: Seq<u8>,
    r: Result<Seq<u8>, CryptoError>,
) -> bool {
    if payload.len() < MIN_PAYLOAD_LENGTH {
        r == Err::<Seq<u8>, CryptoError>(CryptoError::MalformedEnvelope)
    } else if password.len() > PASSWORD_MAX {
        r == Err::<Seq<u8>, CryptoError>(CryptoError::KeyDerivationFailure)
    } else {
        let key = argon2_key_bytes(password, payload_salt(payload));
        &&& forall|p: Seq<u8>|
            p.len() <= PLAINTEXT_MAX && #[trigger] gcm_sealed(key, payload_nonce(payload), p)
                == payload_body(payload) ==> r == Ok::<Seq<u8>, CryptoError>(p)
        &&& match r {
            Ok(p) => gcm_sealed(key, payload_nonce(payload), p) == payload_body(payload)
                && p.len() + MIN_PAYLOAD_LENGTH == payload.len(),
            Err(e) => e == CryptoError::IntegrityError,
        }
    }
}

/// The credential length that the first two bytes of `envelope` give.
pub open spec fn prefix_value(envelope: Seq<u8>) -> int {
    envelope[0] as int * 256 + envelope[1] as int
}

/// The credential and the encrypted payload of `envelope`, where its prefix
/// leaves room for at least a minimal payload.
pub open spec fn envelope_parts(envelope: Seq<u8>) -> Option<(Seq<u8>, Seq<u8>)> {
    if envelope.len() < PREFIX_LENGTH || envelope.len() < PREFIX_LENGTH + prefix_value(envelope)
        + MIN_PAYLOAD_LENGTH {
        None
    } else {
        let n = prefix_value(envelope);
        Some(
            (
                envelope.subrange(PREFIX_LENGTH as int, PREFIX_LENGTH + n),
                envelope.subrange(PREFIX_LENGTH + n, envelope.len() as int),
            ),
        )
    }
}

/// `envelope` holds a credential that `password` verifies against, followed by
/// a payload that seals `plaintext` under `password`.
pub open spec fn envelope_seals(envelope: Seq<u8>, password: Seq<u8>, plaintext: Seq<u8>) -> bool {
    match envelope_parts(envelope) {
        Some((credential, payload)) => {
            &&& argon2_verdict(password, credential) == Some(true)
            &&& payload_seals(payload, password, plaintext)
        },
        None => false,
    }
}

/// What opening `envelope` with `password` returns: a malformed layout, an
/// unreadable credential and a wrong password are told apart in that order,
/// and only a matching password reaches decryption.
pub open spec fn envelope_opens(
    envelope: Seq<u8>,
    password: Seq<u8>,
    r: Result<Seq<u8>, CryptoError>,
) -> bool {
    match envelope_parts(envelope) {
        None => r == Err::<Seq<u8>, CryptoError>(CryptoError::MalformedEnvelope),
        Some((credential, payload)) => match argon2_verdict(password, credential) {
            None => r == Err::<Seq<u8>, CryptoError>(CryptoError::AuthFormatError),
            Some(false) => r == Err::<Seq<u8>, CryptoError>(CryptoError::WrongPassword),
            Some(true) => payload_opens(payload, password, r),
        },
    }
}

/// Derives the 32-byte cipher key from `password` and `salt` with Argon2.
pub fn derive_key(password: &str, salt: &[u8]) -> (r: Result<Vec<u8>, CryptoError>)
    ensures
        match r {
            Ok(k) => k@ == argon2_key_bytes(password.spec_bytes(), salt@) && k@.len() == 32,
            Err(e) => e == CryptoError::KeyDerivationFailure,
        },
        r is Ok <==> (password.spec_bytes().len() <= PASSWORD_MAX && 8 <= salt@.len()
            <= 0xffff_ffff),
{
    match argon2_key(password, salt) {
        Ok(k) => Ok(k),
        Err(_) => Err(CryptoError::KeyDerivationFailure),
    }
}

/// A fresh credential for `password`: a PHC string with its own random salt.
pub fn hash_password(password: &str) -> (r: Result<Vec<u8>, CryptoError>)
    ensures
        match r {
            Ok(c) => argon2_verdict(password.spec_bytes(), c@) == Some(true) && c@.len()
                <= CREDENTIAL_MAX,
            Err(e) => e == CryptoError::KeyDerivationFailure,
        },
        r is Ok <==> password.spec_bytes().len() <= PASSWORD_MAX,
{
    match argon2_credential(password) {
        Ok(c) => Ok(c),
        Err(_) => Err(CryptoError::KeyDerivationFailure),
    }
}

/// Whether `password` matches `credential`; an error where the credential
/// cannot be decoded.
pub fn verify_password(password: &str, credential: &[u8]) -> (r: Result<bool, CryptoError>)
    ensures
        match argon2_verdict(password.spec_bytes(), credential@) {
            Some(b) => r == Ok::<bool, CryptoError>(b),
            None => r == Err::<bool, CryptoError>(CryptoError::AuthFormatError),
        },
{
    match argon2_check(password, credential) {
        Ok(b) => Ok(b),
        Err(_) => Err(CryptoError::AuthFormatError),
    }
}

/// Encrypts `data` under a key that Argon2 derives from `password` and a fresh
/// salt, with a fresh nonce: `salt || nonce || ciphertext+tag`.
pub fn encrypt(data: &[u8], password: &str) -> (r: Result<Vec<u8>, CryptoError>)
    ensures
        match bytes_result(r) {
            Ok(payload) => payload_seals(payload, password.spec_bytes(), data@),
            Err(e) => {
                ||| e == CryptoError::KeyDerivationFailure && password.spec_bytes().len()
                    > PASSWORD_MAX
                ||| e == CryptoError::EncryptionFailure && password.spec_bytes().len()
                    <= PASSWORD_MAX && data@.len() > PLAINTEXT_MAX
            },
        },
        (password.spec_bytes().len() <= PASSWORD_MAX && data@.len() <= PLAINTEXT_MAX) ==> r is Ok,
{
    let salt = fresh_salt();
    let mut key = match derive_key(password, salt.as_slice()) {
        Ok(k) => k,
        Err(e) => return Err(e),
    };
    let nonce = fresh_nonce();
    let sealed = gcm_encrypt(key.as_slice(), nonce.as_slice(), data);
    scrub(&mut key);
    let body = match sealed {
        Ok(c) => c,
        Err(_) => return Err(CryptoError::EncryptionFailure),
    };
    let mut out: Vec<u8> = Vec::new();
    push_all(&mut out, salt.as_slice());
    push_all(&mut out, nonce.as_slice());
    push_all(&mut out, body.as_slice());
    assert(payload_salt(out@) =~= salt@);
    assert(payload_nonce(out@) =~= nonce@);
    assert(payload_body(out@) =~= body@);
    Ok(out)
}

/// Decrypts a payload made by `encrypt`, re-deriving the key from `password`
/// and the stored salt.
pub fn decrypt(payload: &[u8], password: &str) -> (r: Result<Vec<u8>, CryptoError>)
    ensures
        payload_opens(payload@, password.spec_bytes(), bytes_result(r)),
{
    if payload.len() < MIN_PAYLOAD_LENGTH {
        return Err(CryptoError::MalformedEnvelope);
    }
    let mut salt: Vec<u8> = Vec::new();
    push_range(&mut salt, payload, 0, SALT_LENGTH);
    let mut nonce: Vec<u8> = Vec::new();
    push_range(&mut nonce, payload, SALT_LENGTH, SALT_LENGTH + NONCE_LENGTH);
    let mut body: Vec<u8> = Vec::new();
    push_range(&mut body, payload, SALT_LENGTH + NONCE_LENGTH, payload.len());
    assert(salt@ =~= payload_salt(payload@));
    assert(nonce@ =~= payload_nonce(payload@));
    assert(body@ =~= payload_body(payload@));
    let mut key = match derive_key(password, salt.as_slice()) {
        Ok(k) => k,
        Err(e) => return Err(e),
    };
    let opened = gcm_decrypt(key.as_slice(), nonce.as_slice(), body.as_slice());
    scrub(&mut key);
    match opened {
        Ok(p) => Ok(p),
        Err(_) => Err(CryptoError::IntegrityError),
    }
}

/// Seals `plaintext` under `password`: a fresh credential for verification,
/// and an encryption under an independently salted key, in one envelope.
pub fn seal(plaintext: &[u8], password: &str) -> (r: Result<Vec<u8>, CryptoError>)
    ensures
        match bytes_result(r) {
            Ok(envelope) => envelope_seals(envelope, password.spec_bytes(), plaintext@),
            Err(e) => if password.spec_bytes().len() > PASSWORD_MAX {
                e == CryptoError::KeyDerivationFailure
            } else {
                e == CryptoError::EncryptionFailure && plaintext@.len() > PLAINTEXT_MAX
            },
        },
        r is Ok <==> (password.spec_bytes().len() <= PASSWORD_MAX && plaintext@.len()
            <= PLAINTEXT_MAX),
{
    let payload = match encrypt(plaintext, password) {
        Ok(p) => p,
        Err(e) => return Err(e),
    };
    let credential = match hash_password(password) {
        Ok(c) => c,
        Err(e) => return Err(e),
    };
    let n: usize = credential.len();
    let mut out: Vec<u8> = Vec::new();
    out.push((n / 256) as u8);
    out.push((n % 256) as u8);
    push_all(&mut out, credential.as_slice());
    push_all(&mut out, payload.as_slice());
    assert(prefix_value(out@) == n);
    assert(out@.subrange(PREFIX_LENGTH as int, PREFIX_LENGTH + n) =~= credential@);
    assert(out@.subrange(PREFIX_LENGTH + n, out@.len() as int) =~= payload@);
    Ok(out)
}

/// Opens an envelope made by `seal`: splits it by its length prefix, checks
/// the password against the credential, and only then decrypts.
pub fn open(envelope: &[u8], password: &str) -> (r: Result<Vec<u8>, CryptoError>)
    ensures
        envelope_opens(envelope@, password.spec_bytes(), bytes_result(r)),
{
    let len: usize = envelope.len();
    if len < PREFIX_LENGTH {
        return Err(CryptoError::MalformedEnvelope);
    }
    let n: usize = (envelope[0] as usize) * 256 + (envelope[1] as usize);
    if len - PREFIX_LENGTH < n || len - PREFIX_LENGTH - n < MIN_PAYLOAD_LENGTH {
        return Err(CryptoError::MalformedEnvelope);
    }
    let mut credential: Vec<u8> = Vec::new();
    push_range(&mut credential, envelope, PREFIX_LENGTH, PREFIX_LENGTH + n);
    match verify_password(password, credential.as_slice()) {
        Ok(true) => {},
        Ok(false) => return Err(CryptoError::WrongPassword),
        Err(e) => return Err(e),
    }
    let mut payload: Vec<u8> = Vec::new();
    push_range(&mut payload, envelope, PREFIX_LENGTH + n, len);
    decrypt(payload.as_slice(), password)
}

/// Decrypting a payload that `encrypt` made of `plaintext` under `password`,
/// with the same password, gives back exactly `plaintext`.
pub proof fn lemma_decrypt_inverts_encrypt(
    payload: Seq<u8>,
    password: Seq<u8>,
    plaintext: Seq<u8>,
    r: Result<Seq<u8>, CryptoError>,
)
    requires
        payload_seals(payload, password, plaintext),
        payload_opens(payload, password, r),
    ensures
        r == Ok::<Seq<u8>, CryptoError>(plaintext),
{
    let key = argon2_key_bytes(password, payload_salt(payload));
    assert(gcm_sealed(key, payload_nonce(payload), plaintext) == payload_body(payload));
}

/// Opening an envelope that `seal` made of `plaintext` under `password`, with
/// the same password, gives back exactly `plaintext`.
pub proof fn lemma_open_inverts_seal(
    envelope: Seq<u8>,
    password: Seq<u8>,
    plaintext: Seq<u8>,
    r: Result<Seq<u8>, CryptoError>,
)
    requires
        envelope_seals(envelope, password, plaintext),
        envelope_opens(envelope, password, r),
    ensures
        r == Ok::<Seq<u8>, CryptoError>(plaintext),
{
    let (credential, payload) = envelope_parts(envelope).unwrap();
    lemma_decrypt_inverts_encrypt(payload, password, plaintext, r);
}

/// Opening a sealed envelope with a password that its credential rejects
/// fails with `WrongPassword`, before any decryption.
pub proof fn lemma_wrong_password_rejected(
    envelope: Seq<u8>,
    sealing_password: Seq<u8>,
    other_password: Seq<u8>,
    plaintext: Seq<u8>,
    r: Result<Seq<u8>, CryptoError>,
)
    requires
        envelope_seals(envelope, sealing_password, plaintext),
        argon2_verdict(other_password, envelope_parts(envelope).unwrap().0) == Some(false),
        envelope_opens(envelope, other_password, r),
    ensures
        r == Err::<Seq<u8>, CryptoError>(CryptoError::WrongPassword),
{
}

/// Any input shorter than the smallest possible envelope, a truncated
/// envelope among them, is rejected as malformed whatever the password.
pub proof fn lemma_short_envelope_rejected(
    envelope: Seq<u8>,
    password: Seq<u8>,
    r: Result<Seq<u8>, CryptoError>,
)
    requires
        envelope.len() < MIN_ENVELOPE_LENGTH,
        envelope_opens(envelope, password, r),
    ensures
        r == Err::<Seq<u8>, CryptoError>(CryptoError::MalformedEnvelope),
{
}

/// Changing one byte in the ciphertext-and-tag region of a sealed envelope
/// never gives back the sealed plaintext: opening with the right password
/// fails with `IntegrityError`, unless the altered bytes are themselves an
/// AES-GCM encryption, under the same key and nonce, of what is returned.
pub proof fn lemma_tampered_body_rejected(
    envelope: Seq<u8>,
    password: Seq<u8>,
    plaintext: Seq<u8>,
    i: int,
    b: u8,
    r: Result<Seq<u8>, CryptoError>,
)
    requires
        envelope_seals(envelope, password, plaintext),
        PREFIX_LENGTH + prefix_value(envelope) + SALT_LENGTH + NONCE_LENGTH <= i < envelope.len(),
        b != envelope[i],
        envelope_opens(envelope.update(i, b), password, r),
    ensures
        r != Ok::<Seq<u8>, CryptoError>(plaintext),
        r is Err ==> r == Err::<Seq<u8>, CryptoError>(CryptoError::IntegrityError),
        r is Ok ==> gcm_sealed(
            argon2_key_bytes(password, payload_salt(envelope_parts(envelope).unwrap().1)),
            payload_nonce(envelope_parts(envelope).unwrap().1),
            r->Ok_0,
        ) == payload_body(envelope_parts(envelope.update(i, b)).unwrap().1),
{
    let tampered = envelope.update(i, b);
    let n = prefix_value(envelope);
    assert(prefix_value(tampered) == n);
    let (cred_before, payload_before) = envelope_parts(envelope).unwrap();
    let (cred_after, payload_after) = envelope_parts(tampered).unwrap();
    assert(cred_after =~= cred_before);
    assert(payload_salt(payload_after) =~= payload_salt(payload_before));
    assert(payload_nonce(payload_after) =~= payload_nonce(payload_before));
    let j = i - PREFIX_LENGTH - n - SALT_LENGTH - NONCE_LENGTH;
    assert(payload_body(payload_after)[j] != payload_body(payload_before)[j]);
}

} // verus!

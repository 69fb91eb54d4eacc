//! Password-sealed records: Argon2 credentials and keys, AES-256-GCM, and a
//! length-prefixed envelope that carries credential, salt, nonce and ciphertext.

mod bytes;
mod clock;
pub mod cli;
pub mod duration;
pub mod encryption;
pub mod error;
pub mod event;
mod primitives;
pub mod time;

pub use cli::{Cli, Commands};
pub use encryption::{
    decrypt, derive_key, encrypt, hash_password, open, seal, verify_password, NONCE_LENGTH,
    SALT_LENGTH,
};
pub use duration::format_duration;
pub use error::CryptoError;
pub use event::MemoriaEvent;
pub use time::{parse_time, TimeError, TimeInfo};

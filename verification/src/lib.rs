//! Cryptographic abstraction layer for embedded targets: interface traits for hashing, HMAC,
//! HKDF, AEAD and Diffie-Hellman key agreement, an empty provider, a software provider built on
//! the RustCrypto crates, and helpers for implementing providers.
pub mod cal;
pub mod empty;
pub mod hkdf;
pub mod hw_p256;
pub mod plumbing;
pub mod rustcrypto;
pub mod util;

pub use cal::{
    AeadProvider, Cal, DecryptionFailed, DhProvider, HashProvider, HmacProvider, ImportError,
    IncompatibleKeys,
};
pub use hkdf::{HkdfError, HkdfProvider};
pub use util::aesccm::build_b0;

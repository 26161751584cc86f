//! Verified building blocks of a private message relay: per-message X25519
//! stealth inputs, HKDF-SHA256 key derivation, HMAC-SHA256 tags and binding
//! proofs, the relay's spent-nullifier set, and the envelope tagged union.
pub mod backend;
pub mod binding;
pub mod ecdh;
pub mod envelopes;
pub mod error;
pub mod hkdf;
pub mod kdf;
pub mod mixnet;
pub mod nonce;
pub mod salt;
pub mod tag;
pub mod types;

pub use salt::{HKDFParameters, Salt, SaltGenerator};

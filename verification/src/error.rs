//! Errors of the cryptographic primitives.
use vstd::prelude::*;

verus! {

/// Failures of key derivation.
#[derive(Debug, PartialEq, Eq)]
pub enum KdfError {
    /// HKDF-Extract was asked to run on empty input key material.
    EmptyIKM,
    /// HKDF-Expand was asked for more than it can produce.
    OutputLen { requested: usize, max: usize },
    /// HKDF-Expand refused its pseudorandom key.
    ExpandFailure(String),
}

/// Failures of binding-proof verification.
#[derive(Debug, PartialEq, Eq)]
pub enum ProofError {
    /// The proof does not have the expected shape.
    InvalidProof(String),
    /// The nullifier has already been spent.
    ReplayedNullifier,
}

/// Failure to draw a nonce from the system's random source.
#[derive(Debug, PartialEq, Eq)]
pub enum NonceError {
    GenerationFailed,
}

/// Failure to key the HMAC that computes a tag.
#[derive(Debug, PartialEq, Eq)]
pub enum TagError {
    InvalidKeyLength,
}

/// Failure to prepare HKDF parameters.
#[derive(Debug, PartialEq, Eq)]
pub enum HKDFError {
    /// The system's random source could not produce a salt; the text is its report.
    SaltGenerationError(String),
}

/// Failure to draw a fresh X25519 secret from the system's random source.
#[derive(Debug, PartialEq, Eq)]
pub enum KeyGenError {
    RandomnessUnavailable,
}

} // verus!

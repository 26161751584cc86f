//! Per-message nonces drawn from the system's random source.
use vstd::prelude::*;

use crate::backend::{system_rng, system_rng_draw, zeroize_array};
use crate::error::NonceError;

verus! {

/// A 32-byte per-message nonce, zeroized when it goes out of scope.
pub struct Nonce(pub [u8; 32]);

impl Drop for Nonce {
    fn drop(&mut self)
        ensures
            forall|i: int| 0 <= i < 32 ==> final(self).0@[i] == 0u8,
        opens_invariants none
        no_unwind
    {
        zeroize_array(&mut self.0);
    }
}

impl Nonce {
    /// The nonce made of the bytes the random source drew; a failed draw is
    /// reported as `GenerationFailed`, the source's own error detail being
    /// discarded on purpose.
    pub fn from_draw(draw: Result<[u8; 32], getrandom::Error>) -> (r: Result<Nonce, NonceError>)
        ensures
            draw matches Ok(bytes) ==> (r matches Ok(n) && n.0 == bytes),
            draw is Err ==> r == Err::<Nonce, NonceError>(NonceError::GenerationFailed),
    {
        match draw {
            Ok(bytes) => Ok(Nonce(bytes)),
            Err(_) => Err(NonceError::GenerationFailed),
        }
    }
}

/// Draws nonces from the operating system's random source.
pub struct NonceGenerator {
    rng: getrandom::SysRng,
}

impl NonceGenerator {
    pub fn new() -> Self {
        Self { rng: system_rng() }
    }

    /// A fresh nonce from the system source (see `Nonce::from_draw`). The bytes
    /// are whatever the source produced, and whether it fails is up to the
    /// operating system: nothing more is stated.
    pub fn generate(&mut self) -> (r: Result<Nonce, NonceError>)
        ensures
            r is Err ==> r == Err::<Nonce, NonceError>(NonceError::GenerationFailed),
    {
        Nonce::from_draw(system_rng_draw(&mut self.rng))
    }
}

} // verus!

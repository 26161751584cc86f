//! Salts for HKDF and the parameters that carry them.
use vstd::prelude::*;

use crate::backend::{getrandom_error_text, system_rng, system_rng_draw, zeroize_array, zeroize_vec};
use crate::error::HKDFError;

verus! {

/// A 32-byte salt, zeroed when it goes out of scope.
pub struct Salt(pub [u8; 32]);

impl Drop for Salt {
    fn drop(&mut self)
        ensures
            forall|i: int| 0 <= i < 32 ==> final(self).0@[i] == 0u8,
        opens_invariants none
        no_unwind
    {
        zeroize_array(&mut self.0);
    }
}

impl Salt {
    /// The salt made of the bytes the random source drew; a failed draw is
    /// reported with the source's own text.
    pub fn from_draw(draw: Result<[u8; 32], getrandom::Error>) -> (r: Result<Salt, HKDFError>)
        ensures
            draw matches Ok(bytes) ==> (r matches Ok(s) && s.0 == bytes),
            draw is Err ==> r matches Err(HKDFError::SaltGenerationError(_)),
    {
        match draw {
            Ok(bytes) => Ok(Salt(bytes)),
            Err(e) => Err(HKDFError::SaltGenerationError(getrandom_error_text(&e))),
        }
    }
}

/// Draws salts from the operating system's random source.
pub struct SaltGenerator {
    rng: getrandom::SysRng,
}

impl SaltGenerator {
    pub fn new() -> SaltGenerator {
        Self { rng: system_rng() }
    }

    /// Generates a new salt of 32 bytes (see `Salt::from_draw`).
    /// The salt is automatically zeroed out when it goes out of scope,
    /// so that it is not accidentally reused or leaked. The bytes are whatever
    /// the source produced, and whether it fails is up to the operating system.
    pub fn generate_salt(&mut self) -> (r: Result<Salt, HKDFError>)
        ensures
            r is Err ==> r matches Err(HKDFError::SaltGenerationError(_)),
    {
        Salt::from_draw(system_rng_draw(&mut self.rng))
    }
}

/// Input key material and a salt; the key material is wiped when the
/// parameters are dropped.
pub struct HKDFParameters {
    pub ikm: Vec<u8>,
    pub salt: Salt,
}

impl Drop for HKDFParameters {
    fn drop(&mut self)
        ensures
            final(self).ikm@ == Seq::<u8>::empty(),
            final(self).salt.0@ == old(self).salt.0@,
        opens_invariants none
        no_unwind
    {
        zeroize_vec(&mut self.ikm);
    }
}

impl HKDFParameters {
    /// Wraps the key material and the salt; this never fails.
    pub fn new(ikm: Vec<u8>, salt: Salt) -> (r: Result<Self, HKDFError>)
        ensures
            r matches Ok(p) && p.ikm@ == ikm@ && p.salt.0@ == salt.0@,
    {
        Ok(Self { ikm, salt })
    }
}

} // verus!

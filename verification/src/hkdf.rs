//! HKDF-SHA256 driven by explicit parameters: extract, then expand.
use vstd::prelude::*;

use crate::backend::{
    hkdf_sha256_expand, hkdf_sha256_expand_into, hkdf_sha256_extract, hkdf_sha256_extract_prk,
    HkdfExpandFailure, HKDF_SHA256_MAX_OUTPUT,
};
use crate::error::KdfError;
use crate::kdf::zeros;

verus! {

/// Output key material of an HKDF run.
#[derive(Debug)]
pub struct HKDFOutput {
    pub okm: Vec<u8>,
}

/// Salt, info, input key material and output length of an HKDF run.
#[derive(Debug)]
#[allow(non_snake_case)]
pub struct HKDFParameters {
    pub salt: Vec<u8>,
    pub info: Vec<u8>,
    pub IKM: Vec<u8>,
    pub L: usize,
}

/// HKDF-SHA256 over a set of parameters.
#[derive(Debug)]
pub struct HKDF {
    pub params: HKDFParameters,
}

impl HKDF {
    /// An HKDF with empty salt, info and key material, and output length 0.
    pub fn new() -> (h: Self)
        ensures
            h.params.salt@.len() == 0,
            h.params.info@.len() == 0,
            h.params.IKM@.len() == 0,
            h.params.L == 0,
    {
        HKDF { params: HKDFParameters { salt: Vec::new(), info: Vec::new(), IKM: Vec::new(), L: 0 } }
    }

    /// The extract phase: the pseudorandom key of the key material under the
    /// salt. Empty key material is refused.
    pub fn extract(&self) -> (r: Result<Vec<u8>, KdfError>)
        ensures
            self.params.IKM@.len() == 0 ==> r == Err::<Vec<u8>, KdfError>(KdfError::EmptyIKM),
            self.params.IKM@.len() > 0 ==> (r matches Ok(prk) && prk@ == hkdf_sha256_extract(
                self.params.salt@,
                self.params.IKM@,
            )),
    {
        if self.params.IKM.len() == 0 {
            return Err(KdfError::EmptyIKM);
        }
        let prk = hkdf_sha256_extract_prk(self.params.salt.as_slice(), self.params.IKM.as_slice());
        let mut out: Vec<u8> = Vec::new();
        out.extend_from_slice(prk.as_slice());
        assert(out@ =~= prk@);
        Ok(out)
    }

    /// The expand phase: `L` bytes of key material from the pseudorandom key
    /// and the info. An output longer than 255 * 32 bytes is refused first;
    /// then a pseudorandom key shorter than 32 bytes.
    pub fn expand(&self, prk: &[u8]) -> (r: Result<Vec<u8>, KdfError>)
        ensures
            self.params.L > HKDF_SHA256_MAX_OUTPUT ==> r == Err::<Vec<u8>, KdfError>(
                KdfError::OutputLen { requested: self.params.L, max: HKDF_SHA256_MAX_OUTPUT },
            ),
            self.params.L <= HKDF_SHA256_MAX_OUTPUT && prk@.len() < 32 ==> r matches Err(
                KdfError::ExpandFailure(_),
            ),
            self.params.L <= HKDF_SHA256_MAX_OUTPUT && prk@.len() >= 32 ==> (r matches Ok(okm)
                && okm@ == hkdf_sha256_expand(prk@, self.params.info@, self.params.L as nat)),
    {
        if self.params.L > HKDF_SHA256_MAX_OUTPUT {
            return Err(KdfError::OutputLen { requested: self.params.L, max: HKDF_SHA256_MAX_OUTPUT });
        }
        let mut okm = zeros(self.params.L);
        match hkdf_sha256_expand_into(prk, self.params.info.as_slice(), &mut okm) {
            Ok(()) => Ok(okm),
            Err(HkdfExpandFailure::PrkTooShort) => Err(
                KdfError::ExpandFailure("pseudorandom key shorter than the hash output".to_owned()),
            ),
            Err(HkdfExpandFailure::OutputTooLong) => Err(
                KdfError::OutputLen { requested: self.params.L, max: HKDF_SHA256_MAX_OUTPUT },
            ),
        }
    }
}

} // verus!

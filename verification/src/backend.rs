//! The boundary to the cryptographic crates: every call into `hmac`, `hkdf`,
//! `sha2`, `x25519-dalek`, `getrandom` and `zeroize` that the library makes
//! passes through an item of this module. What the library knows of those
//! crates is exactly what the contracts below claim.
use vstd::prelude::*;

use hkdf::Hkdf;
use hmac::{Hmac, KeyInit, Mac};
use sha2::Sha256;

verus! {

// ---------------------------------------------------------------------------
// Outside types that cross the boundary
// ---------------------------------------------------------------------------

/// The operating system's random number source of `getrandom` (a unit struct).
#[verifier::external_type_specification]
#[verifier::external_body]
pub struct ExSysRng(getrandom::SysRng);

/// The error `getrandom` reports when the system source fails.
#[verifier::external_type_specification]
#[verifier::external_body]
pub struct ExGetrandomError(getrandom::Error);

/// The key-length error of the `digest` traits that `hmac` implements.
#[verifier::external_type_specification]
#[verifier::external_body]
pub struct ExInvalidLength(hmac::digest::InvalidLength);

// ---------------------------------------------------------------------------
// Names for results that only the outside crates compute
// ---------------------------------------------------------------------------

/// HMAC-SHA256 of `msg` under `key` (RFC 2104 over SHA-256).
pub uninterp spec fn hmac_sha256(key: Seq<u8>, msg: Seq<u8>) -> Seq<u8>;

/// HKDF-Extract with SHA-256 (RFC 5869, section 2.2): the pseudorandom key is
/// HMAC-SHA256 of the input key material under the salt.
pub open spec fn hkdf_sha256_extract(salt: Seq<u8>, ikm: Seq<u8>) -> Seq<u8> {
    hmac_sha256(salt, ikm)
}

/// Block `i` of HKDF-Expand (RFC 5869, section 2.3): T(0) is empty and
/// T(i) = HMAC-SHA256(prk, T(i - 1) || info || i), the counter as one byte.
pub open spec fn hkdf_sha256_block(prk: Seq<u8>, info: Seq<u8>, i: nat) -> Seq<u8>
    decreases i,
{
    if i == 0 {
        Seq::empty()
    } else {
        hmac_sha256(prk, hkdf_sha256_block(prk, info, (i - 1) as nat) + info + seq![i as u8])
    }
}

/// T(1) || ... || T(n).
pub open spec fn hkdf_sha256_blocks(prk: Seq<u8>, info: Seq<u8>, n: nat) -> Seq<u8>
    decreases n,
{
    if n == 0 {
        Seq::empty()
    } else {
        hkdf_sha256_blocks(prk, info, (n - 1) as nat) + hkdf_sha256_block(prk, info, n)
    }
}

/// HKDF-Expand with SHA-256 (RFC 5869, section 2.3): the first `len` bytes of
/// T(1) || ... || T(ceil(len / 32)).
pub open spec fn hkdf_sha256_expand(prk: Seq<u8>, info: Seq<u8>, len: nat) -> Seq<u8> {
    hkdf_sha256_blocks(prk, info, ((len + 31) / 32) as nat).subrange(0, len as int)
}

/// The X25519 public key (Montgomery u-coordinate) of a 32-byte secret.
pub uninterp spec fn x25519_public_key(secret: Seq<u8>) -> Seq<u8>;

/// The X25519 shared secret of a 32-byte secret and a 32-byte public key.
pub uninterp spec fn x25519_shared_secret(secret: Seq<u8>, public: Seq<u8>) -> Seq<u8>;

/// Largest output that HKDF-Expand with SHA-256 can produce: 255 blocks of 32 bytes.
pub const HKDF_SHA256_MAX_OUTPUT: usize = 8160;

/// Why the HKDF-Expand of `hkdf` refused to run.
#[derive(Debug, Clone, Copy, PartialEq, Eq)]
pub enum HkdfExpandFailure {
    /// `Hkdf::from_prk` refused a pseudorandom key shorter than 32 bytes.
    PrkTooShort,
    /// `Hkdf::expand` refused an output longer than 255 blocks.
    OutputTooLong,
}

// ---------------------------------------------------------------------------
// Trusted wrappers
// ---------------------------------------------------------------------------

/// `hmac::Hmac::<Sha256>::new_from_slice`, `update` and `finalize`.
/// Claims: the result is the HMAC-SHA256 of `msg` under `key`. It also claims
/// that the key is never refused: `HmacCore::new_from_slice` in hmac 0.13 returns
/// `Ok` for every key length (longer keys are hashed, shorter ones padded).
#[verifier::external_body]
pub(crate) fn hmac_sha256_mac(key: &[u8], msg: &[u8]) -> (r: Result<[u8; 32], hmac::digest::InvalidLength>)
    ensures
        r is Ok,
        r is Ok ==> r->Ok_0@ == hmac_sha256(key@, msg@),
{
    let mut mac = <Hmac<Sha256> as KeyInit>::new_from_slice(key)?;
    mac.update(msg);
    Ok(mac.finalize().into_bytes().into())
}

/// `hkdf::Hkdf::<Sha256>::extract` with the salt given.
/// Claims: the pseudorandom key returned is HKDF-Extract of `ikm` under `salt`,
/// that is HMAC-SHA256 of `ikm` keyed by `salt` (`GenericHkdfExtract::new`
/// keys the HMAC with the salt, `input_ikm` feeds the key material).
#[verifier::external_body]
pub(crate) fn hkdf_sha256_extract_prk(salt: &[u8], ikm: &[u8]) -> (prk: [u8; 32])
    ensures
        prk@ == hkdf_sha256_extract(salt@, ikm@),
{
    let (prk, _) = Hkdf::<Sha256>::extract(Some(salt), ikm);
    prk.into()
}

/// `hkdf::Hkdf::<Sha256>::from_prk` followed by `expand` into `okm`.
/// Claims, as the source of hkdf 0.13 shows: `from_prk` refuses a key shorter
/// than 32 bytes and is checked first; `expand` refuses an output longer than
/// 255 * 32 bytes; otherwise `okm` is overwritten with HKDF-Expand of its length:
/// its 32-byte chunks are the blocks T(1), T(2), ... of `expand_multi_info`, each
/// the HMAC under the key of the previous block, the info and the block counter.
/// The length of `okm` never changes. What `okm` holds after a refusal is left unsaid.
#[verifier::external_body]
pub(crate) fn hkdf_sha256_expand_into(prk: &[u8], info: &[u8], okm: &mut Vec<u8>) -> (r: Result<(), HkdfExpandFailure>)
    ensures
        final(okm)@.len() == old(okm)@.len(),
        prk@.len() < 32 ==> r matches Err(HkdfExpandFailure::PrkTooShort),
        prk@.len() >= 32 && old(okm)@.len() > HKDF_SHA256_MAX_OUTPUT ==> r matches Err(
            HkdfExpandFailure::OutputTooLong,
        ),
        prk@.len() >= 32 && old(okm)@.len() <= HKDF_SHA256_MAX_OUTPUT ==> r is Ok
            && final(okm)@ == hkdf_sha256_expand(prk@, info@, old(okm)@.len() as nat),
{
    let hkdf = match Hkdf::<Sha256>::from_prk(prk) {
        Ok(h) => h,
        Err(_) => return Err(HkdfExpandFailure::PrkTooShort),
    };
    match hkdf.expand(info, okm.as_mut_slice()) {
        Ok(()) => Ok(()),
        Err(_) => Err(HkdfExpandFailure::OutputTooLong),
    }
}

/// `x25519_dalek::PublicKey::from(&StaticSecret::from(secret))`, as bytes.
/// Claims: the result is the X25519 public key of `secret`.
#[verifier::external_body]
pub(crate) fn x25519_public_from_secret(secret: &[u8; 32]) -> (pk: [u8; 32])
    ensures
        pk@ == x25519_public_key(secret@),
{
    x25519_dalek::PublicKey::from(&x25519_dalek::StaticSecret::from(*secret)).to_bytes()
}

/// `x25519_dalek::StaticSecret::diffie_hellman`, as bytes.
/// Claims: the result is the X25519 shared secret of `secret` and `public`, and
/// the agreement that x25519-dalek documents (its README and the example of
/// `x25519`): whoever holds a secret `other` whose public key is `public` computes
/// the same bytes from the public key of `secret`.
#[verifier::external_body]
pub(crate) fn x25519_diffie_hellman(secret: &[u8; 32], public: &[u8; 32]) -> (ss: [u8; 32])
    ensures
        ss@ == x25519_shared_secret(secret@, public@),
        forall|other: Seq<u8>|
            other.len() == 32 && public@ == #[trigger] x25519_public_key(other) ==> ss@
                == x25519_shared_secret(other, x25519_public_key(secret@)),
{
    let secret = x25519_dalek::StaticSecret::from(*secret);
    let public = x25519_dalek::PublicKey::from(*public);
    secret.diffie_hellman(&public).to_bytes()
}

/// The unit value `getrandom::SysRng`. Nothing is claimed.
#[verifier::external_body]
pub(crate) fn system_rng() -> getrandom::SysRng {
    getrandom::SysRng
}

/// `TryRng::try_fill_bytes` of `getrandom::SysRng` on a fresh 32-byte buffer,
/// which is handed back when the source succeeds. Nothing is claimed of the
/// bytes nor of when the source fails: both depend on the operating system.
#[verifier::external_body]
pub(crate) fn system_rng_draw(rng: &mut getrandom::SysRng) -> Result<[u8; 32], getrandom::Error> {
    let mut bytes = [0u8; 32];
    getrandom::rand_core::TryRng::try_fill_bytes(rng, &mut bytes)?;
    Ok(bytes)
}

/// The text of a `getrandom::Error` (its `Display`). Nothing is claimed of it.
#[verifier::external_body]
pub(crate) fn getrandom_error_text(e: &getrandom::Error) -> String {
    std::string::ToString::to_string(e)
}

/// `zeroize::Zeroize::zeroize` on a byte array: overwrites every byte with 0.
#[verifier::external_body]
pub(crate) fn zeroize_array<const N: usize>(bytes: &mut [u8; N])
    ensures
        final(bytes)@.len() == N,
        forall|i: int| 0 <= i < N ==> final(bytes)@[i] == 0u8,
    opens_invariants none
    no_unwind
{
    zeroize::Zeroize::zeroize(bytes)
}

} // verus!

verus! {

/// `zeroize::Zeroize::zeroize` on a byte vector. Claims, as the impl for `Vec`
/// in zeroize 1.9 shows: every element and the spare capacity are overwritten
/// with 0, then the vector is cleared, so it is empty afterwards.
#[verifier::external_body]
pub(crate) fn zeroize_vec(bytes: &mut Vec<u8>)
    ensures
        final(bytes)@ == Seq::<u8>::empty(),
    opens_invariants none
    no_unwind
{
    zeroize::Zeroize::zeroize(bytes)
}

} // verus!

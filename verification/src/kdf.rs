//! Per-message key derivation:
//! tag_key = HKDF-SHA256(ikm, salt = nonce, info = INFO_TAG) and
//! binding_key = HKDF-SHA256(ikm, salt = nonce, info = INFO_BINDING),
//! where ikm = shared_secret || stealth_input.
use vstd::prelude::*;
use vstd::string::StringSliceAdditionalSpecFns;

use crate::backend::{
    hkdf_sha256_expand, hkdf_sha256_expand_into, hkdf_sha256_extract, hkdf_sha256_extract_prk,
    hmac_sha256, zeroize_array, zeroize_vec, HkdfExpandFailure, HKDF_SHA256_MAX_OUTPUT,
};
use crate::error::KdfError;
use crate::nonce::Nonce;
use crate::types::{BindingKey, RecipientKeys, SenderKeys, StealthInput, TagKey};

verus! {

pub const INFO_TAG: &'static str = "fhe-relay-tag-v1";

pub const INFO_BINDING: &'static str = "fhe-relay-binding-v1";

/// HKDF-SHA256 of `ikm` with `salt` and `info`, 32 bytes long.
pub open spec fn spec_hkdf32(salt: Seq<u8>, ikm: Seq<u8>, info: Seq<u8>) -> Seq<u8> {
    hkdf_sha256_expand(hkdf_sha256_extract(salt, ikm), info, 32)
}

/// The key material of a message: shared_secret || stealth_input.
pub open spec fn spec_ikm(shared_secret: Seq<u8>, stealth_input: Seq<u8>) -> Seq<u8> {
    shared_secret + stealth_input
}

/// The tag key both sides derive for a message.
pub open spec fn spec_tag_key(shared_secret: Seq<u8>, stealth_input: Seq<u8>, nonce: Seq<u8>) -> Seq<u8> {
    spec_hkdf32(nonce, spec_ikm(shared_secret, stealth_input), INFO_TAG.spec_bytes())
}

/// The binding key only the sender derives for a message.
pub open spec fn spec_binding_key(shared_secret: Seq<u8>, stealth_input: Seq<u8>, nonce: Seq<u8>) -> Seq<u8> {
    spec_hkdf32(nonce, spec_ikm(shared_secret, stealth_input), INFO_BINDING.spec_bytes())
}

/// Copies 32 bytes out of a vector into an array.
pub(crate) fn array_of(v: &Vec<u8>) -> (a: [u8; 32])
    requires
        v@.len() == 32,
    ensures
        a@ == v@,
{
    let mut a = [0u8; 32];
    let mut i: usize = 0;
    while i < 32
        invariant
            0 <= i <= 32,
            v@.len() == 32,
            forall|j: int| 0 <= j < i ==> a@[j] == v@[j],
        decreases 32 - i,
    {
        a[i] = v[i];
        i = i + 1;
    }
    assert(a@ =~= v@);
    a
}

/// A vector of `len` zero bytes.
pub(crate) fn zeros(len: usize) -> (v: Vec<u8>)
    ensures
        v@.len() == len,
        forall|i: int| 0 <= i < len ==> v@[i] == 0u8,
{
    let mut v: Vec<u8> = Vec::new();
    let mut i: usize = 0;
    while i < len
        invariant
            0 <= i <= len,
            v@.len() == i,
            forall|j: int| 0 <= j < i ==> v@[j] == 0u8,
        decreases len - i,
    {
        v.push(0u8);
        i = i + 1;
    }
    v
}

/// HKDF-SHA256 of `ikm` under `salt` and `info`, 32 bytes; it cannot fail.
fn hkdf32(salt: &[u8], ikm: &[u8], info: &[u8]) -> (r: Result<[u8; 32], KdfError>)
    ensures
        r matches Ok(k) && k@ == spec_hkdf32(salt@, ikm@, info@),
{
    let mut prk = hkdf_sha256_extract_prk(salt, ikm);
    let mut okm = zeros(32);
    let expanded = hkdf_sha256_expand_into(prk.as_slice(), info, &mut okm);
    zeroize_array(&mut prk);
    match expanded {
        Ok(()) => {
            let key = array_of(&okm);
            zeroize_vec(&mut okm);
            Ok(key)
        },
        Err(HkdfExpandFailure::PrkTooShort) => Err(
            KdfError::ExpandFailure("pseudorandom key shorter than the hash output".to_owned()),
        ),
        Err(HkdfExpandFailure::OutputTooLong) => Err(
            KdfError::OutputLen { requested: 32, max: HKDF_SHA256_MAX_OUTPUT },
        ),
    }
}

/// shared_secret || stealth_input, 64 bytes on the stack.
fn input_key_material(shared_secret: &[u8; 32], stealth_input: &StealthInput) -> (ikm: [u8; 64])
    ensures
        ikm@ == spec_ikm(shared_secret@, stealth_input.0@),
        ikm@ == shared_secret@ + stealth_input.0@,
{
    let mut ikm = [0u8; 64];
    let mut i: usize = 0;
    while i < 32
        invariant
            0 <= i <= 32,
            ikm@.len() == 64,
            forall|j: int| 0 <= j < i ==> ikm@[j] == shared_secret@[j],
            forall|j: int| 0 <= j < i ==> ikm@[32 + j] == stealth_input.0@[j],
        decreases 32 - i,
    {
        ikm[i] = shared_secret[i];
        ikm[32 + i] = stealth_input.0[i];
        i = i + 1;
    }
    assert(ikm@ =~= spec_ikm(shared_secret@, stealth_input.0@));
    ikm
}

/// Derives both keys of the sender for one message. Never fails: the key
/// material is 64 bytes and 32 bytes of output is within HKDF's range.
pub fn derive_sender_keys(
    shared_secret: &[u8; 32],
    stealth_input: &StealthInput,
    nonce: &Nonce,
) -> (r: Result<SenderKeys, KdfError>)
    ensures
        r matches Ok(keys) && keys.tag_key.0@ == spec_tag_key(
            shared_secret@,
            stealth_input.0@,
            nonce.0@,
        ) && keys.binding_key.0@ == spec_binding_key(shared_secret@, stealth_input.0@, nonce.0@),
        r matches Ok(keys) && keys.tag_key.0@ == hkdf_sha256_expand(
            hkdf_sha256_extract(nonce.0@, shared_secret@ + stealth_input.0@),
            INFO_TAG.spec_bytes(),
            32,
        ) && keys.binding_key.0@ == hkdf_sha256_expand(
            hkdf_sha256_extract(nonce.0@, shared_secret@ + stealth_input.0@),
            INFO_BINDING.spec_bytes(),
            32,
        ),
{
    let mut ikm = input_key_material(shared_secret, stealth_input);
    let tag_key = hkdf32(nonce.0.as_slice(), ikm.as_slice(), INFO_TAG.as_bytes());
    let binding_key = hkdf32(nonce.0.as_slice(), ikm.as_slice(), INFO_BINDING.as_bytes());
    zeroize_array(&mut ikm);
    Ok(SenderKeys { tag_key: TagKey(tag_key?), binding_key: BindingKey(binding_key?) })
}

/// Derives the recipient's tag key for one message; the binding key is not
/// derived, the recipient never needs it. Never fails.
pub fn derive_recipient_keys(
    shared_secret: &[u8; 32],
    stealth_input: &StealthInput,
    nonce: &Nonce,
) -> (r: Result<RecipientKeys, KdfError>)
    ensures
        r matches Ok(keys) && keys.tag_key.0@ == spec_tag_key(
            shared_secret@,
            stealth_input.0@,
            nonce.0@,
        ),
        r matches Ok(keys) && keys.tag_key.0@ == hkdf_sha256_expand(
            hkdf_sha256_extract(nonce.0@, shared_secret@ + stealth_input.0@),
            INFO_TAG.spec_bytes(),
            32,
        ),
{
    let mut ikm = input_key_material(shared_secret, stealth_input);
    let tag_key = hkdf32(nonce.0.as_slice(), ikm.as_slice(), INFO_TAG.as_bytes());
    zeroize_array(&mut ikm);
    Ok(RecipientKeys { tag_key: TagKey(tag_key?) })
}

/// The key material is the 64-byte concatenation shared_secret || stealth_input:
/// its first half is the shared secret and its second half the stealth input,
/// byte for byte.
pub proof fn key_material_is_the_concatenation(shared_secret: Seq<u8>, stealth_input: Seq<u8>)
    requires
        shared_secret.len() == 32,
        stealth_input.len() == 32,
    ensures
        spec_ikm(shared_secret, stealth_input).len() == 64,
        forall|j: int| 0 <= j < 32 ==> #[trigger] spec_ikm(shared_secret, stealth_input)[j] == shared_secret[j],
        forall|j: int| 0 <= j < 32 ==> #[trigger] spec_ikm(shared_secret, stealth_input)[32 + j] == stealth_input[j],
{
}

/// Both keys are HKDF-SHA256 (extract with the nonce as salt, then expand to 32
/// bytes) of the whole key material shared_secret || stealth_input, under the
/// tag label and the binding label respectively.
pub proof fn keys_are_hkdf_of_the_whole_key_material(
    shared_secret: Seq<u8>,
    stealth_input: Seq<u8>,
    nonce: Seq<u8>,
)
    ensures
        spec_tag_key(shared_secret, stealth_input, nonce) == hkdf_sha256_expand(
            hmac_sha256(nonce, shared_secret + stealth_input),
            INFO_TAG.spec_bytes(),
            32,
        ),
        spec_binding_key(shared_secret, stealth_input, nonce) == hkdf_sha256_expand(
            hmac_sha256(nonce, shared_secret + stealth_input),
            INFO_BINDING.spec_bytes(),
            32,
        ),
{
}

} // verus!

//! The HMAC-based binding proof and its check at the relay.
//!
//! nullifier  = HMAC-SHA256(binding_key, tag)
//! commitment = HMAC-SHA256(binding_key, nonce || shared_secret || stealth_input)
//! proof      = nullifier || commitment
//!
//! The relay cannot re-derive the commitment (it does not hold the binding key);
//! it checks that the proof opens to the nullifier it was given and that the
//! nullifier has not been spent.
use vstd::prelude::*;

use crate::backend::{hmac_sha256, hmac_sha256_mac, zeroize_vec};
use crate::error::ProofError;
use crate::nonce::Nonce;
use crate::types::{BindingKey, BindingProof, Nullifier, NullifierProof, StealthInput, Tag};

verus! {

/// The nullifier of a tag under a binding key.
pub open spec fn spec_nullifier(binding_key: Seq<u8>, tag: Seq<u8>) -> Seq<u8> {
    hmac_sha256(binding_key, tag)
}

/// The commitment of a message under a binding key.
pub open spec fn spec_commitment(
    binding_key: Seq<u8>,
    nonce: Seq<u8>,
    shared_secret: Seq<u8>,
    stealth_input: Seq<u8>,
) -> Seq<u8> {
    hmac_sha256(binding_key, nonce + shared_secret + stealth_input)
}

/// The binding proof of a message: nullifier || commitment.
pub open spec fn spec_binding_proof(
    tag: Seq<u8>,
    shared_secret: Seq<u8>,
    stealth_input: Seq<u8>,
    nonce: Seq<u8>,
    binding_key: Seq<u8>,
) -> Seq<u8> {
    spec_nullifier(binding_key, tag) + spec_commitment(binding_key, nonce, shared_secret, stealth_input)
}

/// A proof opens to a nullifier when it is 64 bytes long and its first 32 bytes
/// are the nullifier.
pub open spec fn opens_to(proof: Seq<u8>, nullifier: Seq<u8>) -> bool {
    proof.len() == 64 && proof.subrange(0, 32) == nullifier
}

/// The relay accepts a proof for a nullifier that has not been spent and to
/// which the proof opens.
pub open spec fn accepted(proof: Seq<u8>, nullifier: Seq<u8>, spent: Set<Seq<u8>>) -> bool {
    !spent.contains(nullifier) && opens_to(proof, nullifier)
}

/// HMAC(binding_key, tag): the nullifier that marks this message as spent.
pub fn generate_nullifier(binding_key: BindingKey, tag: Tag) -> (n: Nullifier)
    ensures
        n.0@ == spec_nullifier(binding_key.0@, tag.0@),
        n.0@ == hmac_sha256(binding_key.0@, tag.0@),
{
    match hmac_sha256_mac(&binding_key.0, &tag.0) {
        Ok(bytes) => Nullifier(bytes),
        Err(_) => Nullifier([0u8; 32]),
    }
}

/// nonce || shared_secret || stealth_input, 96 bytes.
fn commitment_message(nonce: &Nonce, shared_secret: &[u8; 32], stealth_input: &StealthInput) -> (m: Vec<u8>)
    ensures
        m@ == nonce.0@ + shared_secret@ + stealth_input.0@,
{
    let mut m: Vec<u8> = Vec::new();
    m.extend_from_slice(nonce.0.as_slice());
    m.extend_from_slice(shared_secret.as_slice());
    m.extend_from_slice(stealth_input.0.as_slice());
    assert(m@ =~= nonce.0@ + shared_secret@ + stealth_input.0@);
    m
}

/// Generates the 64-byte binding proof nullifier || commitment. The proof
/// always opens to the nullifier of the tag.
pub fn generate_proof(
    tag: Tag,
    shared_secret: [u8; 32],
    stealth_input: StealthInput,
    nonce: Nonce,
    binding_key: BindingKey,
) -> (p: BindingProof)
    ensures
        p.0@ == spec_binding_proof(tag.0@, shared_secret@, stealth_input.0@, nonce.0@, binding_key.0@),
        opens_to(p.0@, spec_nullifier(binding_key.0@, tag.0@)),
        p.0@.len() == 64,
        p.0@.subrange(0, 32) == hmac_sha256(binding_key.0@, tag.0@),
        p.0@.subrange(32, 64) == hmac_sha256(binding_key.0@, nonce.0@ + shared_secret@ + stealth_input.0@),
{
    let nullifier = match hmac_sha256_mac(&binding_key.0, &tag.0) {
        Ok(bytes) => bytes,
        Err(_) => [0u8; 32],
    };
    let mut message = commitment_message(&nonce, &shared_secret, &stealth_input);
    let commitment = match hmac_sha256_mac(&binding_key.0, message.as_slice()) {
        Ok(bytes) => bytes,
        Err(_) => [0u8; 32],
    };
    zeroize_vec(&mut message);
    let mut proof: Vec<u8> = Vec::new();
    proof.extend_from_slice(nullifier.as_slice());
    proof.extend_from_slice(commitment.as_slice());
    assert(proof@ =~= nullifier@ + commitment@);
    assert(proof@.subrange(0, 32) =~= nullifier@);
    assert(proof@.subrange(32, 64) =~= commitment@);
    BindingProof(proof)
}

/// Whether the first 32 bytes of `proof` are `nullifier`.
fn opens_to_nullifier(proof: &Vec<u8>, nullifier: &[u8; 32]) -> (r: bool)
    requires
        proof@.len() == 64,
    ensures
        r == (proof@.subrange(0, 32) == nullifier@),
{
    let mut i: usize = 0;
    while i < 32
        invariant
            0 <= i <= 32,
            proof@.len() == 64,
            forall|j: int| 0 <= j < i ==> proof@[j] == nullifier@[j],
        decreases 32 - i,
    {
        if proof[i] != nullifier[i] {
            assert(proof@.subrange(0, 32)[i as int] != nullifier@[i as int]);
            return false;
        }
        i = i + 1;
    }
    assert(proof@.subrange(0, 32) =~= nullifier@);
    true
}

/// Checks a binding proof at the relay: a spent nullifier is a replay; a proof
/// that is not 64 bytes, or does not start with the nullifier, is invalid.
/// The tag is not read: without the binding key the relay cannot re-derive
/// the commitment.
pub fn verify_proof(proof: BindingProof, tag: Tag, nullifier: Nullifier, seen: &NullifierProof) -> (r: Result<(), ProofError>)
    ensures
        r is Ok <==> accepted(proof.0@, nullifier.0@, seen@),
        r == Err::<(), ProofError>(ProofError::ReplayedNullifier) <==> seen@.contains(nullifier.0@),
        r is Err && seen@.contains(nullifier.0@) == false ==> r matches Err(ProofError::InvalidProof(_)),
{
    if seen.contains(&nullifier) {
        return Err(ProofError::ReplayedNullifier);
    }
    if proof.0.len() != 64 {
        return Err(ProofError::InvalidProof("binding proof must be 64 bytes".to_owned()));
    }
    if !opens_to_nullifier(&proof.0, &nullifier.0) {
        return Err(ProofError::InvalidProof("binding proof does not open to the nullifier".to_owned()));
    }
    Ok(())
}

/// The nullifier is HMAC-SHA256 of the whole tag under the binding key; the
/// commitment is HMAC-SHA256 of nonce || shared_secret || stealth_input under
/// it; and the proof is the nullifier followed by the commitment.
pub proof fn proof_parts_are_hmacs_of_the_whole_inputs(
    tag: Seq<u8>,
    shared_secret: Seq<u8>,
    stealth_input: Seq<u8>,
    nonce: Seq<u8>,
    binding_key: Seq<u8>,
)
    ensures
        spec_nullifier(binding_key, tag) == hmac_sha256(binding_key, tag),
        spec_commitment(binding_key, nonce, shared_secret, stealth_input) == hmac_sha256(
            binding_key,
            nonce + shared_secret + stealth_input,
        ),
        spec_binding_proof(tag, shared_secret, stealth_input, nonce, binding_key) == hmac_sha256(
            binding_key,
            tag,
        ) + hmac_sha256(binding_key, nonce + shared_secret + stealth_input),
{
}

/// A proof generated for a message is accepted at the relay with the message's
/// nullifier as long as that nullifier has not been spent (HMAC-SHA256 outputs
/// are 32 bytes long).
pub proof fn fresh_proof_is_accepted(
    tag: Seq<u8>,
    shared_secret: Seq<u8>,
    stealth_input: Seq<u8>,
    nonce: Seq<u8>,
    binding_key: Seq<u8>,
    spent: Set<Seq<u8>>,
)
    requires
        spec_nullifier(binding_key, tag).len() == 32,
        spec_commitment(binding_key, nonce, shared_secret, stealth_input).len() == 32,
        !spent.contains(spec_nullifier(binding_key, tag)),
    ensures
        accepted(
            spec_binding_proof(tag, shared_secret, stealth_input, nonce, binding_key),
            spec_nullifier(binding_key, tag),
            spent,
        ),
{
    let n = spec_nullifier(binding_key, tag);
    let c = spec_commitment(binding_key, nonce, shared_secret, stealth_input);
    assert((n + c).subrange(0, 32) =~= n);
}

/// Once a nullifier is recorded as spent, no proof is accepted for it again.
pub proof fn spent_nullifier_is_rejected(proof: Seq<u8>, nullifier: Seq<u8>, spent: Set<Seq<u8>>)
    ensures
        !accepted(proof, nullifier, spent.insert(nullifier)),
{
}

/// Recording a nullifier twice reports the second as a replay: after the first
/// insertion the set contains it, and insertion reports `false` exactly for
/// nullifiers the set contains.
pub proof fn second_insertion_is_a_replay(nullifier: Seq<u8>, spent: Set<Seq<u8>>)
    ensures
        spent.insert(nullifier).contains(nullifier),
        spent.insert(nullifier).insert(nullifier) == spent.insert(nullifier),
{
    assert(spent.insert(nullifier).insert(nullifier) =~= spent.insert(nullifier));
}

} // verus!

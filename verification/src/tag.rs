//! The on-chain tag: HMAC-SHA256(key = tag_key, msg = nonce).
use vstd::prelude::*;

use crate::backend::{hmac_sha256, hmac_sha256_mac};
use crate::error::TagError;
use crate::nonce::Nonce;
use crate::ecdh::{stealth_input_of, stealth_inputs_agree};
use crate::kdf::spec_tag_key;
use crate::types::{same_bytes, EphemeralKeyPair, StaticKeyPair, Tag, TagKey};

verus! {

/// The tag of a message: HMAC-SHA256 of the nonce under the tag key.
pub open spec fn spec_tag(tag_key: Seq<u8>, nonce: Seq<u8>) -> Seq<u8> {
    hmac_sha256(tag_key, nonce)
}

/// A candidate is recognized under a key and a nonce when it is their tag.
pub open spec fn spec_recognizes(tag_key: Seq<u8>, nonce: Seq<u8>, candidate: Seq<u8>) -> bool {
    spec_tag(tag_key, nonce) == candidate
}

/// Generates a tag: HMAC-SHA256(key=tag_key, msg=nonce).
///
/// The tag is the on-chain identifier for the message.
/// The nonce is consumed and zeroized after the HMAC update.
pub fn generate_tag(tag_key: TagKey, nonce: Nonce) -> (r: Result<Tag, TagError>)
    ensures
        r matches Ok(t) && t.0@ == spec_tag(tag_key.0@, nonce.0@),
        r matches Ok(t) && t.0@ == hmac_sha256(tag_key.0@, nonce.0@),
{
    match hmac_sha256_mac(&tag_key.0, &nonce.0) {
        Ok(bytes) => Ok(Tag(bytes)),
        Err(_) => Err(TagError::InvalidKeyLength),
    }
}

/// Returns true if the candidate tag matches the one derived from tag_key and nonce.
pub fn recognize_tag(tag_key: TagKey, nonce: Nonce, candidate: &Tag) -> (r: Result<bool, TagError>)
    ensures
        r == Ok::<bool, TagError>(spec_recognizes(tag_key.0@, nonce.0@, candidate.0@)),
        r == Ok::<bool, TagError>(hmac_sha256(tag_key.0@, nonce.0@) == candidate.0@),
{
    let generated = generate_tag(tag_key, nonce)?;
    Ok(same_bytes(&generated.0, &candidate.0))
}

/// The tag is HMAC-SHA256 of the whole nonce under the tag key, and a candidate
/// is recognized exactly when it is that HMAC.
pub proof fn tag_is_hmac_of_the_whole_nonce(tag_key: Seq<u8>, nonce: Seq<u8>, candidate: Seq<u8>)
    ensures
        spec_tag(tag_key, nonce) == hmac_sha256(tag_key, nonce),
        spec_recognizes(tag_key, nonce, candidate) <==> candidate == hmac_sha256(tag_key, nonce),
{
}

/// A generated tag is recognized under the key and nonce it was generated from.
pub proof fn generated_tag_is_recognized(tag_key: Seq<u8>, nonce: Seq<u8>)
    ensures
        spec_recognizes(tag_key, nonce, spec_tag(tag_key, nonce)),
{
}

/// End to end: the recipient, deriving its tag key from its static secret and
/// the ephemeral public key, recognizes the tag that the sender generated
/// from its ephemeral secret and the recipient's public key, for the same
/// shared secret and nonce.
pub proof fn recipient_recognizes_sender_tag(
    ephemeral: EphemeralKeyPair,
    recipient: StaticKeyPair,
    shared_secret: Seq<u8>,
    nonce: Seq<u8>,
    at_sender: Seq<u8>,
    at_recipient: Seq<u8>,
)
    requires
        ephemeral.wf(),
        recipient.wf(),
        stealth_input_of(ephemeral.secret.0@, recipient.pk_b.0@, at_sender),
        stealth_input_of(recipient.sk_b.0@, ephemeral.public.0@, at_recipient),
    ensures
        spec_tag_key(shared_secret, at_recipient, nonce) == spec_tag_key(shared_secret, at_sender, nonce),
        spec_recognizes(
            spec_tag_key(shared_secret, at_recipient, nonce),
            nonce,
            spec_tag(spec_tag_key(shared_secret, at_sender, nonce), nonce),
        ),
{
    stealth_inputs_agree(ephemeral, recipient, at_sender, at_recipient);
}

} // verus!

//! X25519 keypairs and the per-message stealth input.
use vstd::prelude::*;

use crate::backend::{
    system_rng, system_rng_draw, x25519_diffie_hellman, x25519_public_from_secret,
    x25519_public_key, x25519_shared_secret,
};
use crate::error::KeyGenError;
use crate::types::{EphemeralKeyPair, PublicKey, StaticKeyPair, StaticSecret, StealthInput};

verus! {

impl EphemeralKeyPair {
    /// The keypair of the secret the random source drew: the secret is the
    /// drawn bytes, the public key its X25519 public key.
    pub fn from_draw(draw: Result<[u8; 32], getrandom::Error>) -> (r: Result<EphemeralKeyPair, KeyGenError>)
        ensures
            draw matches Ok(bytes) ==> (r matches Ok(kp) && kp.secret.0 == bytes && kp.wf()),
            draw is Err ==> r == Err::<EphemeralKeyPair, KeyGenError>(KeyGenError::RandomnessUnavailable),
    {
        match draw {
            Ok(bytes) => {
                let public = x25519_public_from_secret(&bytes);
                Ok(EphemeralKeyPair { secret: StaticSecret(bytes), public: PublicKey(public) })
            },
            Err(_) => Err(KeyGenError::RandomnessUnavailable),
        }
    }
}

impl StaticKeyPair {
    /// The keypair of the secret the random source drew: the secret is the
    /// drawn bytes, the public key its X25519 public key.
    pub fn from_draw(draw: Result<[u8; 32], getrandom::Error>) -> (r: Result<StaticKeyPair, KeyGenError>)
        ensures
            draw matches Ok(bytes) ==> (r matches Ok(kp) && kp.sk_b.0 == bytes && kp.wf()),
            draw is Err ==> r == Err::<StaticKeyPair, KeyGenError>(KeyGenError::RandomnessUnavailable),
    {
        match draw {
            Ok(bytes) => {
                let public = x25519_public_from_secret(&bytes);
                Ok(StaticKeyPair { sk_b: StaticSecret(bytes), pk_b: PublicKey(public) })
            },
            Err(_) => Err(KeyGenError::RandomnessUnavailable),
        }
    }
}

/// Generates the sender's per-message keypair from the system's random source.
/// Whatever secret comes out, the public key is the X25519 public key of it.
pub fn generate_ephemeral_keypair() -> (r: Result<EphemeralKeyPair, KeyGenError>)
    ensures
        r matches Ok(kp) ==> kp.wf(),
{
    let mut rng = system_rng();
    EphemeralKeyPair::from_draw(system_rng_draw(&mut rng))
}

/// Generates the recipient's long-lived keypair from the system's random source.
/// Whatever secret comes out, the public key is the X25519 public key of it.
pub fn generate_static_keypair() -> (r: Result<StaticKeyPair, KeyGenError>)
    ensures
        r matches Ok(kp) ==> kp.wf(),
{
    let mut rng = system_rng();
    StaticKeyPair::from_draw(system_rng_draw(&mut rng))
}

/// `s` is the X25519 output of `secret` and `public`, and equals what the holder
/// of the secret behind `public` computes from the public key of `secret`.
pub open spec fn stealth_input_of(secret: Seq<u8>, public: Seq<u8>, s: Seq<u8>) -> bool {
    &&& s == x25519_shared_secret(secret, public)
    &&& forall|other: Seq<u8>|
        other.len() == 32 && public == #[trigger] x25519_public_key(other) ==> s
            == x25519_shared_secret(other, x25519_public_key(secret))
}

/// X25519(static_secret, public_key): the stealth input of a message. The sender
/// computes it as X25519(ek_secret, pk_b), the recipient as X25519(sk_b, ek_pub);
/// the two agree, as the second clause states.
pub fn compute_stealth_input(static_secret: &StaticSecret, public_key: &PublicKey) -> (s: StealthInput)
    ensures
        stealth_input_of(static_secret.0@, public_key.0@, s.0@),
{
    StealthInput(x25519_diffie_hellman(&static_secret.0, &public_key.0))
}

/// The sender, from its ephemeral secret and the recipient's public key, and the
/// recipient, from its static secret and the ephemeral public key, compute the
/// same stealth input.
pub proof fn stealth_inputs_agree(
    ephemeral: EphemeralKeyPair,
    recipient: StaticKeyPair,
    at_sender: Seq<u8>,
    at_recipient: Seq<u8>,
)
    requires
        ephemeral.wf(),
        recipient.wf(),
        stealth_input_of(ephemeral.secret.0@, recipient.pk_b.0@, at_sender),
        stealth_input_of(recipient.sk_b.0@, ephemeral.public.0@, at_recipient),
    ensures
        at_sender == at_recipient,
{
    assert(recipient.sk_b.0@.len() == 32);
    assert(x25519_public_key(recipient.sk_b.0@) == recipient.pk_b.0@);
}

} // verus!

use fhe_over_nym::binding::{generate_nullifier, generate_proof, verify_proof};
use fhe_over_nym::ecdh::{compute_stealth_input, generate_ephemeral_keypair, generate_static_keypair};
use fhe_over_nym::error::{HKDFError, KdfError, KeyGenError, NonceError, ProofError};
use fhe_over_nym::hkdf::HKDF;
use fhe_over_nym::kdf::{derive_recipient_keys, derive_sender_keys};
use fhe_over_nym::nonce::{Nonce, NonceGenerator};
use fhe_over_nym::tag::{generate_tag, recognize_tag};
use fhe_over_nym::types::{
    BindingKey, BindingProof, EphemeralKeyPair, StaticKeyPair, Nullifier, NullifierProof, PublicKey, StaticSecret, StealthInput, Tag,
    TagKey,
};
use fhe_over_nym::{HKDFParameters, Salt, SaltGenerator};

fn hex(s: &str) -> Vec<u8> {
    (0..s.len()).step_by(2).map(|i| u8::from_str_radix(&s[i..i + 2], 16).unwrap()).collect()
}

fn hex32(s: &str) -> [u8; 32] {
    hex(s).try_into().unwrap()
}

#[test]
fn test_nonce_generation() {
    println!("Testing nonce generation...");
    let mut generator = NonceGenerator::new();
    let nonce1 = generator.generate().expect("Failed to generate nonce");
    let nonce2 = generator.generate().expect("Failed to generate nonce");
    assert_ne!(nonce1.0, nonce2.0, "Generated nonces should be unique");
}

#[test]
fn tag_is_hmac_sha256_of_nonce_under_tag_key() {
    let tag = generate_tag(TagKey([0x11; 32]), Nonce([0x22; 32])).unwrap();
    assert_eq!(tag.0, hex32("acfecbc329264d7fdf1f0b9428f9fcd8936da6200960a422170f3d7a97eaed0e"));
}

#[test]
fn generated_tag_is_recognized_and_others_are_not() {
    let tag = generate_tag(TagKey([7; 32]), Nonce([9; 32])).unwrap();
    assert_eq!(recognize_tag(TagKey([7; 32]), Nonce([9; 32]), &tag), Ok(true));
    assert_eq!(recognize_tag(TagKey([8; 32]), Nonce([9; 32]), &tag), Ok(false));
    assert_eq!(recognize_tag(TagKey([7; 32]), Nonce([10; 32]), &tag), Ok(false));
    let mut other = tag.0;
    other[31] ^= 1;
    assert_eq!(recognize_tag(TagKey([7; 32]), Nonce([9; 32]), &Tag(other)), Ok(false));
}

#[test]
fn sender_keys_are_hkdf_sha256_of_shared_secret_and_stealth_input() {
    let keys = derive_sender_keys(&[0x33; 32], &StealthInput([0x44; 32]), &Nonce([0x22; 32])).unwrap();
    assert_eq!(keys.tag_key.0, hex32("fa6776c6e02ca152a4b97877f186dc954930dcdd6a1f80342a6a77a28b24bbcc"));
    assert_eq!(
        keys.binding_key.0,
        hex32("9a4a6726fa8a104d4a3c4ea1fc5a69ed3edd952e1a6cd3964e8883bf2355fa28")
    );
}

#[test]
fn recipient_derives_the_sender_tag_key_only() {
    let sender = derive_sender_keys(&[0x33; 32], &StealthInput([0x44; 32]), &Nonce([0x22; 32])).unwrap();
    let recipient =
        derive_recipient_keys(&[0x33; 32], &StealthInput([0x44; 32]), &Nonce([0x22; 32])).unwrap();
    assert_eq!(recipient.tag_key, sender.tag_key);
    assert_ne!(sender.tag_key.0, sender.binding_key.0);
}

#[test]
fn stealth_input_matches_rfc7748_vector() {
    let alice_sk = hex32("77076d0a7318a57d3c16c17251b26645df4c2f87ebc0992ab177fba51db92c2a");
    let alice_pk = hex32("8520f0098930a754748b7ddcb43ef75a0dbf3a0d26381af4eba4a98eaa9b4e6a");
    let bob_sk = hex32("5dab087e624a8a4b79e17f8b83800ee66f3bb1292618b6fd1c2f8b27ff88e0eb");
    let bob_pk = hex32("de9edb7d7b7dc1b4d35b61c2ece435373f8343c85b78674dadfc7e146f882b4f");
    let shared = hex32("4a5d9d5ba4ce2de1728e3bf480350f25e07e21c947d19e3376f09b3c1e161742");
    let a = compute_stealth_input(&StaticSecret(alice_sk), &PublicKey(bob_pk));
    let b = compute_stealth_input(&StaticSecret(bob_sk), &PublicKey(alice_pk));
    assert_eq!(a.0, shared);
    assert_eq!(b.0, shared);
}

#[test]
fn generated_keypairs_agree_on_the_stealth_input() {
    let ephemeral = generate_ephemeral_keypair().unwrap();
    let recipient = generate_static_keypair().unwrap();
    let at_sender = compute_stealth_input(&ephemeral.secret, &recipient.pk_b);
    let at_recipient = compute_stealth_input(&recipient.sk_b, &ephemeral.public);
    assert_eq!(at_sender, at_recipient);
    assert_ne!(ephemeral.public, recipient.pk_b);
}

#[test]
fn recipient_recognizes_the_tag_of_the_sender() {
    let shared = [0x5a; 32];
    let nonce = [0x42; 32];
    let ephemeral = generate_ephemeral_keypair().unwrap();
    let recipient = generate_static_keypair().unwrap();
    let at_sender = compute_stealth_input(&ephemeral.secret, &recipient.pk_b);
    let keys = derive_sender_keys(&shared, &at_sender, &Nonce(nonce)).unwrap();
    let tag = generate_tag(keys.tag_key, Nonce(nonce)).unwrap();

    let at_recipient = compute_stealth_input(&recipient.sk_b, &ephemeral.public);
    let rkeys = derive_recipient_keys(&shared, &at_recipient, &Nonce(nonce)).unwrap();
    assert_eq!(recognize_tag(rkeys.tag_key, Nonce(nonce), &tag), Ok(true));
}

#[test]
fn binding_proof_is_nullifier_then_commitment() {
    let proof = generate_proof(
        Tag([0x66; 32]),
        [0x33; 32],
        StealthInput([0x44; 32]),
        Nonce([0x22; 32]),
        BindingKey([0x55; 32]),
    );
    let nullifier = generate_nullifier(BindingKey([0x55; 32]), Tag([0x66; 32]));
    assert_eq!(nullifier.0, hex32("477822be511b7d52f23a921211019404de0328cb4cebdeaac78311aead51fb5f"));
    assert_eq!(proof.0.len(), 64);
    assert_eq!(&proof.0[..32], &nullifier.0[..]);
    assert_eq!(&proof.0[32..], &hex("b7756f4805bb84f03f7dff922a85ea0b22d918b6a79158d943227a57f8168c87")[..]);
}

fn sample_proof() -> BindingProof {
    generate_proof(Tag([1; 32]), [2; 32], StealthInput([3; 32]), Nonce([4; 32]), BindingKey([5; 32]))
}

fn sample_nullifier() -> Nullifier {
    generate_nullifier(BindingKey([5; 32]), Tag([1; 32]))
}

#[test]
fn fresh_proof_is_accepted_and_replay_is_rejected() {
    let mut seen = NullifierProof::new();
    assert_eq!(verify_proof(sample_proof(), Tag([1; 32]), sample_nullifier(), &seen), Ok(()));
    assert!(seen.insert(sample_nullifier()));
    assert_eq!(
        verify_proof(sample_proof(), Tag([1; 32]), sample_nullifier(), &seen),
        Err(ProofError::ReplayedNullifier)
    );
}

#[test]
fn malformed_proofs_are_invalid() {
    let seen = NullifierProof::new();
    let short = BindingProof(vec![0; 63]);
    assert!(matches!(
        verify_proof(short, Tag([1; 32]), sample_nullifier(), &seen),
        Err(ProofError::InvalidProof(_))
    ));
    assert!(matches!(
        verify_proof(sample_proof(), Tag([1; 32]), Nullifier([0; 32]), &seen),
        Err(ProofError::InvalidProof(_))
    ));
}

#[test]
fn nullifier_set_reports_replays() {
    let mut seen = NullifierProof::new();
    assert!(!seen.contains(&Nullifier([1; 32])));
    assert!(seen.insert(Nullifier([1; 32])));
    assert!(seen.insert(Nullifier([2; 32])));
    assert!(!seen.insert(Nullifier([1; 32])));
    assert!(seen.contains(&Nullifier([1; 32])));
    assert!(seen.contains(&Nullifier([2; 32])));
    assert!(!seen.contains(&Nullifier([3; 32])));
}

#[test]
fn hkdf_matches_rfc5869_test_case_1() {
    let mut hkdf = HKDF::new();
    hkdf.params.IKM = vec![0x0b; 22];
    hkdf.params.salt = (0x00..=0x0c).collect();
    hkdf.params.info = (0xf0..=0xf9).collect();
    hkdf.params.L = 42;
    let prk = hkdf.extract().unwrap();
    assert_eq!(prk, hex("077709362c2e32df0ddc3f0dc47bba6390b6c73bb50f9c3122ec844ad7c2b3e5"));
    let okm = hkdf.expand(&prk).unwrap();
    assert_eq!(
        okm,
        hex("3cb25f25faacd57a90434f64d0362f2a2d2d0a90cf1a5a4c5db02d56ecc4c5bf34007208d5b887185865")
    );
}

#[test]
fn hkdf_refusals() {
    let mut hkdf = HKDF::new();
    assert_eq!(hkdf.extract(), Err(KdfError::EmptyIKM));
    assert_eq!(hkdf.expand(&[0u8; 32]), Ok(vec![]));
    assert!(matches!(hkdf.expand(&[0u8; 31]), Err(KdfError::ExpandFailure(_))));
    hkdf.params.L = 8161;
    assert_eq!(hkdf.expand(&[0u8; 32]), Err(KdfError::OutputLen { requested: 8161, max: 8160 }));
    hkdf.params.L = 8160;
    assert_eq!(hkdf.expand(&[0u8; 32]).unwrap().len(), 8160);
}

#[test]
fn salts_and_parameters() {
    let mut generator = SaltGenerator::new();
    let salt = generator.generate_salt().unwrap();
    let other = generator.generate_salt().unwrap();
    assert_ne!(salt.0, other.0);
    let params = HKDFParameters::new(vec![1, 2, 3], Salt([9; 32])).unwrap();
    assert_eq!(params.ikm, vec![1, 2, 3]);
    assert_eq!(params.salt.0, [9; 32]);
}

#[test]
fn draws_become_nonces_salts_and_keypairs() {
    let n = Nonce::from_draw(Ok([3; 32])).unwrap();
    assert_eq!(n.0, [3; 32]);
    assert!(matches!(Nonce::from_draw(Err(getrandom::Error::UNSUPPORTED)), Err(NonceError::GenerationFailed)));

    let s = Salt::from_draw(Ok([4; 32])).unwrap();
    assert_eq!(s.0, [4; 32]);
    assert!(matches!(
        Salt::from_draw(Err(getrandom::Error::UNSUPPORTED)),
        Err(HKDFError::SaltGenerationError(_))
    ));

    let alice_sk = hex32("77076d0a7318a57d3c16c17251b26645df4c2f87ebc0992ab177fba51db92c2a");
    let alice_pk = hex32("8520f0098930a754748b7ddcb43ef75a0dbf3a0d26381af4eba4a98eaa9b4e6a");
    let e = EphemeralKeyPair::from_draw(Ok(alice_sk)).unwrap();
    assert_eq!(e.secret.0, alice_sk);
    assert_eq!(e.public.0, alice_pk);
    let b = StaticKeyPair::from_draw(Ok(alice_sk)).unwrap();
    assert_eq!(b.pk_b.0, alice_pk);
    assert!(matches!(
        EphemeralKeyPair::from_draw(Err(getrandom::Error::UNEXPECTED)),
        Err(KeyGenError::RandomnessUnavailable)
    ));
    assert!(matches!(
        StaticKeyPair::from_draw(Err(getrandom::Error::UNEXPECTED)),
        Err(KeyGenError::RandomnessUnavailable)
    ));
}

#[test]
fn nullifier_set_holds_exactly_the_inserted_ones() {
    let inserted: Vec<[u8; 32]> = vec![[1; 32], [2; 32], [1; 32], [7; 32]];
    let mut seen = NullifierProof::new();
    for n in &inserted {
        seen.insert(Nullifier(*n));
    }
    for m in 0u8..10 {
        assert_eq!(seen.contains(&Nullifier([m; 32])), inserted.contains(&[m; 32]));
    }
}

#[test]
fn generators_fail_only_with_their_own_error() {
    let mut nonces = NonceGenerator::new();
    match nonces.generate() {
        Ok(n) => assert_eq!(n.0.len(), 32),
        Err(e) => assert_eq!(e, NonceError::GenerationFailed),
    }
    let mut salts = SaltGenerator::new();
    match salts.generate_salt() {
        Ok(s) => assert_eq!(s.0.len(), 32),
        Err(e) => assert!(matches!(e, HKDFError::SaltGenerationError(_))),
    }
}

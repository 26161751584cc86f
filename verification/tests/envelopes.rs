use fhe_over_nym::envelopes::{
    ClientEnvelope, DeliveryEnvelope, DispatchEnvelope, Envelope, EnvelopeCodec, EnvelopeError,
    ReceivedNotification, RelayerEnvelope, VerifiedNotification, WireEnvelope,
};

fn sample_verified() -> VerifiedNotification {
    VerifiedNotification { tag: [0xAB; 32] }
}

fn sample_dispatch() -> DispatchEnvelope {
    DispatchEnvelope { nonce: [1; 32], ek: [2; 32], tag: [3; 32], fhe_ciphertext: vec![9, 9, 9] }
}

#[test]
fn kind_labels_follow_the_variant() {
    let client = ClientEnvelope {
        nonce: [1u8; 32],
        ek: [2u8; 32],
        tag: [3u8; 32],
        fhe_ciphertext: vec![4, 5, 6],
        binding_proof: vec![7, 8, 9],
        nullifier: [10u8; 32],
        fhe_pk: vec![11, 12, 13],
    };
    let relayer = RelayerEnvelope {
        tag: [3u8; 32],
        binding_proof: vec![7, 8, 9],
        nullifier: [10u8; 32],
        fhe_pk: vec![11, 12, 13],
        fhe_ciphertext: vec![4, 5, 6],
    };
    let delivery = DeliveryEnvelope { nonce: [1; 32], ek: [2; 32], tag: [3; 32], fhe_ciphertext: vec![] };
    assert_eq!(client.into_envelope().kind(), "Client");
    assert_eq!(relayer.into_envelope().kind(), "Relayer");
    assert_eq!(sample_dispatch().into_envelope().kind(), "Dispatch");
    assert_eq!(sample_verified().into_envelope().kind(), "Verified");
    assert_eq!(ReceivedNotification { tag: [0; 32] }.into_envelope().kind(), "Received");
    assert_eq!(delivery.into_envelope().kind(), "Delivery");
    assert_eq!(ClientEnvelope::KIND, "Client");
    assert_eq!(DeliveryEnvelope::KIND, "Delivery");
}

#[test]
fn wrapped_value_comes_back_out() {
    let sent = sample_verified();
    let env = sent.clone().into_envelope();
    assert_eq!(env, Envelope::Verified(sent.clone()));
    let back = VerifiedNotification::from_envelope(env).unwrap();
    assert_eq!(sent, back);
    let d = sample_dispatch();
    assert_eq!(DispatchEnvelope::from_envelope(d.clone().into_envelope()), Ok(d));
}

#[test]
fn verified_is_not_taken_for_received() {
    let env = sample_verified().into_envelope();
    assert!(VerifiedNotification::from_envelope(env.clone()).is_ok());
    let err = ReceivedNotification::from_envelope(env).unwrap_err();
    match err {
        EnvelopeError::KindMismatch { expected, found } => {
            assert_eq!(expected, "Received");
            assert_eq!(found, "Verified");
        }
        other => panic!("expected KindMismatch, got {other:?}"),
    }
}

#[test]
fn dispatch_is_not_taken_for_delivery() {
    let d = sample_dispatch();
    let env = d.clone().into_envelope();
    assert_eq!(env.kind(), "Dispatch");
    assert_eq!(
        DeliveryEnvelope::from_envelope(env.clone()),
        Err(EnvelopeError::KindMismatch { expected: "Delivery", found: "Dispatch" })
    );
    assert_eq!(DispatchEnvelope::from_envelope(env).unwrap(), d);
}

#[test]
fn codec_can_be_built() {
    let _codec = EnvelopeCodec::new();
    let _other: EnvelopeCodec = Default::default();
}

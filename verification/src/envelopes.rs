//! The envelope tagged union that every relay message travels in, and the
//! typed views of its variants.
use vstd::prelude::*;

verus! {

/// Why a message could not be handled as an envelope of the kind asked for.
#[derive(Debug, PartialEq, Eq)]
pub enum EnvelopeError {
    /// The envelope carried another variant than the one asked for.
    KindMismatch { expected: &'static str, found: &'static str },
    /// The bytes could not be encoded or decoded; the text is the codec's report.
    Codec(String),
}

/// A -> mailbox
#[derive(Debug, Clone, PartialEq, Eq, Hash)]
pub struct ClientEnvelope {
    pub nonce: [u8; 32],
    pub ek: [u8; 32],
    pub tag: [u8; 32],
    pub fhe_ciphertext: Vec<u8>,
    pub binding_proof: Vec<u8>,
    pub nullifier: [u8; 32],
    pub fhe_pk: Vec<u8>,
}

/// mailbox -> relayer
#[derive(Debug, Clone, PartialEq, Eq, Hash)]
pub struct RelayerEnvelope {
    pub tag: [u8; 32],
    pub binding_proof: Vec<u8>,
    pub nullifier: [u8; 32],
    pub fhe_pk: Vec<u8>,
    pub fhe_ciphertext: Vec<u8>,
}

/// mailbox -> dispatcher (after Verified)
#[derive(Debug, Clone, PartialEq, Eq, Hash)]
pub struct DispatchEnvelope {
    pub nonce: [u8; 32],
    pub ek: [u8; 32],
    pub tag: [u8; 32],
    pub fhe_ciphertext: Vec<u8>,
}

/// relayer -> mailbox
#[derive(Debug, Clone, PartialEq, Eq, Hash)]
pub struct VerifiedNotification {
    pub tag: [u8; 32],
}

/// dispatcher -> mailbox
#[derive(Debug, Clone, PartialEq, Eq, Hash)]
pub struct ReceivedNotification {
    pub tag: [u8; 32],
}

/// dispatcher -> B
#[derive(Debug, Clone, PartialEq, Eq, Hash)]
pub struct DeliveryEnvelope {
    pub nonce: [u8; 32],
    pub ek: [u8; 32],
    pub tag: [u8; 32],
    pub fhe_ciphertext: Vec<u8>,
}

/// Tagged union: the variant is on the wire, by position. The list is append-only.
#[derive(Debug, Clone, PartialEq, Eq, Hash)]
pub enum Envelope {
    Client(ClientEnvelope),
    Relayer(RelayerEnvelope),
    Dispatch(DispatchEnvelope),
    Verified(VerifiedNotification),
    Received(ReceivedNotification),
    Delivery(DeliveryEnvelope),
}

impl Envelope {
    /// The kind label of a variant.
    pub open spec fn kind_of(&self) -> &'static str {
        match self {
            Envelope::Client(_) => "Client",
            Envelope::Relayer(_) => "Relayer",
            Envelope::Dispatch(_) => "Dispatch",
            Envelope::Verified(_) => "Verified",
            Envelope::Received(_) => "Received",
            Envelope::Delivery(_) => "Delivery",
        }
    }

    /// Human-readable kind label, used in mismatch errors and tracing telemetry.
    pub fn kind(&self) -> (k: &'static str)
        ensures
            k == self.kind_of(),
    {
        match self {
            Envelope::Client(_) => "Client",
            Envelope::Relayer(_) => "Relayer",
            Envelope::Dispatch(_) => "Dispatch",
            Envelope::Verified(_) => "Verified",
            Envelope::Received(_) => "Received",
            Envelope::Delivery(_) => "Delivery",
        }
    }
}

/// Ties a concrete envelope struct to its place in the tagged union.
/// `into_envelope` wraps it for sending; `from_envelope` pulls it back out on
/// receive, returning `KindMismatch` if the wire carried a different variant.
pub trait WireEnvelope: Sized {
    const KIND: &'static str;

    /// The envelope this value travels as.
    spec fn wrapped(self) -> Envelope;

    /// Values of this type travel under their kind, each as itself.
    proof fn lemma_wrapped(self, other: Self)
        ensures
            self.wrapped().kind_of() == Self::KIND,
            self.wrapped() == other.wrapped() ==> self == other;

    fn into_envelope(self) -> (env: Envelope)
        ensures
            env == self.wrapped();

    fn from_envelope(env: Envelope) -> (r: Result<Self, EnvelopeError>)
        ensures
            env.kind_of() == Self::KIND ==> (r matches Ok(v) && v.wrapped() == env),
            env.kind_of() != Self::KIND ==> r == Err::<Self, EnvelopeError>(
                EnvelopeError::KindMismatch { expected: Self::KIND, found: env.kind_of() },
            );
}

impl WireEnvelope for ClientEnvelope {
    const KIND: &'static str = "Client";

    open spec fn wrapped(self) -> Envelope {
        Envelope::Client(self)
    }

    proof fn lemma_wrapped(self, other: Self) {
    }

    fn into_envelope(self) -> (env: Envelope)
        ensures
            env == Envelope::Client(self),
    {
        Envelope::Client(self)
    }

    fn from_envelope(env: Envelope) -> (r: Result<Self, EnvelopeError>)
        ensures
            env matches Envelope::Client(inner) ==> r == Ok::<Self, EnvelopeError>(inner),
            !(env is Client) ==> r == Err::<Self, EnvelopeError>(
                EnvelopeError::KindMismatch { expected: "Client", found: env.kind_of() },
            ),
    {
        match env {
            Envelope::Client(inner) => Ok(inner),
            other => Err(EnvelopeError::KindMismatch { expected: "Client", found: other.kind() }),
        }
    }
}

impl WireEnvelope for RelayerEnvelope {
    const KIND: &'static str = "Relayer";

    open spec fn wrapped(self) -> Envelope {
        Envelope::Relayer(self)
    }

    proof fn lemma_wrapped(self, other: Self) {
    }

    fn into_envelope(self) -> (env: Envelope)
        ensures
            env == Envelope::Relayer(self),
    {
        Envelope::Relayer(self)
    }

    fn from_envelope(env: Envelope) -> (r: Result<Self, EnvelopeError>)
        ensures
            env matches Envelope::Relayer(inner) ==> r == Ok::<Self, EnvelopeError>(inner),
            !(env is Relayer) ==> r == Err::<Self, EnvelopeError>(
                EnvelopeError::KindMismatch { expected: "Relayer", found: env.kind_of() },
            ),
    {
        match env {
            Envelope::Relayer(inner) => Ok(inner),
            other => Err(EnvelopeError::KindMismatch { expected: "Relayer", found: other.kind() }),
        }
    }
}

impl WireEnvelope for DispatchEnvelope {
    const KIND: &'static str = "Dispatch";

    open spec fn wrapped(self) -> Envelope {
        Envelope::Dispatch(self)
    }

    proof fn lemma_wrapped(self, other: Self) {
    }

    fn into_envelope(self) -> (env: Envelope)
        ensures
            env == Envelope::Dispatch(self),
    {
        Envelope::Dispatch(self)
    }

    fn from_envelope(env: Envelope) -> (r: Result<Self, EnvelopeError>)
        ensures
            env matches Envelope::Dispatch(inner) ==> r == Ok::<Self, EnvelopeError>(inner),
            !(env is Dispatch) ==> r == Err::<Self, EnvelopeError>(
                EnvelopeError::KindMismatch { expected: "Dispatch", found: env.kind_of() },
            ),
    {
        match env {
            Envelope::Dispatch(inner) => Ok(inner),
            other => Err(EnvelopeError::KindMismatch { expected: "Dispatch", found: other.kind() }),
        }
    }
}

impl WireEnvelope for VerifiedNotification {
    const KIND: &'static str = "Verified";

    open spec fn wrapped(self) -> Envelope {
        Envelope::Verified(self)
    }

    proof fn lemma_wrapped(self, other: Self) {
    }

    fn into_envelope(self) -> (env: Envelope)
        ensures
            env == Envelope::Verified(self),
    {
        Envelope::Verified(self)
    }

    fn from_envelope(env: Envelope) -> (r: Result<Self, EnvelopeError>)
        ensures
            env matches Envelope::Verified(inner) ==> r == Ok::<Self, EnvelopeError>(inner),
            !(env is Verified) ==> r == Err::<Self, EnvelopeError>(
                EnvelopeError::KindMismatch { expected: "Verified", found: env.kind_of() },
            ),
    {
        match env {
            Envelope::Verified(inner) => Ok(inner),
            other => Err(EnvelopeError::KindMismatch { expected: "Verified", found: other.kind() }),
        }
    }
}

impl WireEnvelope for ReceivedNotification {
    const KIND: &'static str = "Received";

    open spec fn wrapped(self) -> Envelope {
        Envelope::Received(self)
    }

    proof fn lemma_wrapped(self, other: Self) {
    }

    fn into_envelope(self) -> (env: Envelope)
        ensures
            env == Envelope::Received(self),
    {
        Envelope::Received(self)
    }

    fn from_envelope(env: Envelope) -> (r: Result<Self, EnvelopeError>)
        ensures
            env matches Envelope::Received(inner) ==> r == Ok::<Self, EnvelopeError>(inner),
            !(env is Received) ==> r == Err::<Self, EnvelopeError>(
                EnvelopeError::KindMismatch { expected: "Received", found: env.kind_of() },
            ),
    {
        match env {
            Envelope::Received(inner) => Ok(inner),
            other => Err(EnvelopeError::KindMismatch { expected: "Received", found: other.kind() }),
        }
    }
}

impl WireEnvelope for DeliveryEnvelope {
    const KIND: &'static str = "Delivery";

    open spec fn wrapped(self) -> Envelope {
        Envelope::Delivery(self)
    }

    proof fn lemma_wrapped(self, other: Self) {
    }

    fn into_envelope(self) -> (env: Envelope)
        ensures
            env == Envelope::Delivery(self),
    {
        Envelope::Delivery(self)
    }

    fn from_envelope(env: Envelope) -> (r: Result<Self, EnvelopeError>)
        ensures
            env matches Envelope::Delivery(inner) ==> r == Ok::<Self, EnvelopeError>(inner),
            !(env is Delivery) ==> r == Err::<Self, EnvelopeError>(
                EnvelopeError::KindMismatch { expected: "Delivery", found: env.kind_of() },
            ),
    {
        match env {
            Envelope::Delivery(inner) => Ok(inner),
            other => Err(EnvelopeError::KindMismatch { expected: "Delivery", found: other.kind() }),
        }
    }
}

/// Each typed envelope travels as its own variant of the union carrying the
/// value itself, unchanged, under the label of that variant.
pub proof fn each_type_travels_as_itself(
    c: ClientEnvelope,
    r: RelayerEnvelope,
    d: DispatchEnvelope,
    v: VerifiedNotification,
    n: ReceivedNotification,
    l: DeliveryEnvelope,
)
    ensures
        c.wrapped() == Envelope::Client(c) && ClientEnvelope::KIND == "Client",
        r.wrapped() == Envelope::Relayer(r) && RelayerEnvelope::KIND == "Relayer",
        d.wrapped() == Envelope::Dispatch(d) && DispatchEnvelope::KIND == "Dispatch",
        v.wrapped() == Envelope::Verified(v) && VerifiedNotification::KIND == "Verified",
        n.wrapped() == Envelope::Received(n) && ReceivedNotification::KIND == "Received",
        l.wrapped() == Envelope::Delivery(l) && DeliveryEnvelope::KIND == "Delivery",
{
}

/// A value taken out of the envelope it was wrapped in is the value itself.
pub proof fn envelope_round_trip<T: WireEnvelope>(x: T, r: Result<T, EnvelopeError>)
    requires
        x.wrapped().kind_of() == T::KIND ==> (r matches Ok(v) && v.wrapped() == x.wrapped()),
    ensures
        r == Ok::<T, EnvelopeError>(x),
{
    x.lemma_wrapped(x);
    if let Ok(v) = r {
        x.lemma_wrapped(v);
    }
}

/// Asking for another kind than the one wrapped is a `KindMismatch` that names
/// the kind asked for and the kind found.
pub proof fn other_kind_is_refused<T: WireEnvelope, U: WireEnvelope>(x: T, r: Result<U, EnvelopeError>)
    requires
        T::KIND != U::KIND,
        x.wrapped().kind_of() != U::KIND ==> r == Err::<U, EnvelopeError>(
            EnvelopeError::KindMismatch { expected: U::KIND, found: x.wrapped().kind_of() },
        ),
    ensures
        r == Err::<U, EnvelopeError>(EnvelopeError::KindMismatch { expected: U::KIND, found: T::KIND }),
{
    x.lemma_wrapped(x);
}

/// The six variants carry six different kinds, so no two of them can be taken
/// for one another, not even the byte-identical pairs (Verified and Received,
/// Dispatch and Delivery).
pub proof fn kinds_are_distinct()
    ensures
        ClientEnvelope::KIND != RelayerEnvelope::KIND,
        ClientEnvelope::KIND != DispatchEnvelope::KIND,
        ClientEnvelope::KIND != VerifiedNotification::KIND,
        ClientEnvelope::KIND != ReceivedNotification::KIND,
        ClientEnvelope::KIND != DeliveryEnvelope::KIND,
        RelayerEnvelope::KIND != DispatchEnvelope::KIND,
        RelayerEnvelope::KIND != VerifiedNotification::KIND,
        RelayerEnvelope::KIND != ReceivedNotification::KIND,
        RelayerEnvelope::KIND != DeliveryEnvelope::KIND,
        DispatchEnvelope::KIND != VerifiedNotification::KIND,
        DispatchEnvelope::KIND != ReceivedNotification::KIND,
        DispatchEnvelope::KIND != DeliveryEnvelope::KIND,
        VerifiedNotification::KIND != ReceivedNotification::KIND,
        VerifiedNotification::KIND != DeliveryEnvelope::KIND,
        ReceivedNotification::KIND != DeliveryEnvelope::KIND,
{
}

/// Codec that always goes through the tagged union.
#[derive(Clone, Default)]
pub struct EnvelopeCodec;

impl EnvelopeCodec {
    pub fn new() -> Self {
        EnvelopeCodec
    }
}

} // verus!

//! Keys, tags, proofs and the spent-nullifier set of the relay protocol.
use vstd::prelude::*;

verus! {

/// HMAC output that identifies a message on chain.
#[derive(Debug, PartialEq, Eq)]
pub struct Tag(pub [u8; 32]);

/// HMAC(binding_key, tag): identifies one spend, for replay protection.
#[derive(Debug, PartialEq, Eq, Hash)]
pub struct Nullifier(pub [u8; 32]);

/// Derived key, used for the tag HMAC only.
#[derive(Debug, PartialEq, Eq)]
pub struct TagKey(pub [u8; 32]);

/// Derived key, used only for the proof and the nullifier.
#[derive(Debug, PartialEq, Eq)]
pub struct BindingKey(pub [u8; 32]);

/// X25519 output. It is never stored: it serves identification only.
#[derive(Debug, PartialEq, Eq)]
pub struct StealthInput(pub [u8; 32]);

/// The 32 secret bytes of an X25519 key, as `x25519_dalek::StaticSecret` holds
/// them; like it, they are zeroized when the secret is dropped.
#[derive(Clone)]
pub struct StaticSecret(pub [u8; 32]);

impl Drop for StaticSecret {
    fn drop(&mut self)
        ensures
            forall|i: int| 0 <= i < 32 ==> final(self).0@[i] == 0u8,
        opens_invariants none
        no_unwind
    {
        crate::backend::zeroize_array(&mut self.0);
    }
}

/// The 32 bytes of an X25519 public key (a Montgomery u-coordinate).
#[derive(Debug, Clone, Copy, PartialEq, Eq)]
pub struct PublicKey(pub [u8; 32]);

// --- Keypairs ---

/// Per-message keypair of the sender: `secret` is used once, `public` travels as `ek`.
pub struct EphemeralKeyPair {
    pub secret: StaticSecret,
    pub public: PublicKey,
}

/// Long-lived keypair of the recipient: `sk_b` never travels, `pk_b` is shared out of band.
pub struct StaticKeyPair {
    pub sk_b: StaticSecret,
    pub pk_b: PublicKey,
}

impl EphemeralKeyPair {
    /// `public` is the X25519 public key of `secret`.
    pub open spec fn wf(&self) -> bool {
        self.public.0@ == crate::backend::x25519_public_key(self.secret.0@)
    }
}

impl StaticKeyPair {
    /// `pk_b` is the X25519 public key of `sk_b`.
    pub open spec fn wf(&self) -> bool {
        self.pk_b.0@ == crate::backend::x25519_public_key(self.sk_b.0@)
    }
}

// --- Derived keys ---

/// Both keys the sender derives for one message.
#[derive(Debug, PartialEq, Eq)]
pub struct SenderKeys {
    pub tag_key: TagKey,
    pub binding_key: BindingKey,
}

/// The only key the recipient derives: it never needs the binding key.
#[derive(Debug, PartialEq, Eq)]
pub struct RecipientKeys {
    pub tag_key: TagKey,
}

// --- Proofs ---

/// HMAC-based binding proof: nullifier || commitment (64 bytes when well formed).
pub struct BindingProof(pub Vec<u8>);

/// Set of spent nullifiers maintained by the relay for replay protection.
pub struct NullifierProof(Vec<Nullifier>);

/// The result of the FHE evaluation, encrypted under fhe_pk; travels in an envelope as ct.
pub struct FheEvalResult(Vec<u8>);

/// Whether two 32-byte strings are equal, compared byte by byte.
pub fn same_bytes(a: &[u8; 32], b: &[u8; 32]) -> (r: bool)
    ensures
        r == (a@ == b@),
{
    let mut i: usize = 0;
    while i < 32
        invariant
            0 <= i <= 32,
            forall|j: int| 0 <= j < i ==> a@[j] == b@[j],
        decreases 32 - i,
    {
        if a[i] != b[i] {
            assert(a@[i as int] != b@[i as int]);
            return false;
        }
        i = i + 1;
    }
    assert(a@ =~= b@);
    true
}

impl View for NullifierProof {
    type V = Set<Seq<u8>>;

    /// The spent nullifiers, each by its 32 bytes.
    closed spec fn view(&self) -> Set<Seq<u8>> {
        self.spent().to_set()
    }
}

impl NullifierProof {
    /// The stored nullifiers in insertion order.
    closed spec fn spent(&self) -> Seq<Seq<u8>> {
        self.0@.map_values(|n: Nullifier| n.0@)
    }

    /// No nullifier is stored twice.
    #[verifier::type_invariant]
    closed spec fn no_duplicates(&self) -> bool {
        self.spent().no_duplicates()
    }

    /// Creates an empty spent-nullifier set.
    pub fn new() -> (s: Self)
        ensures
            s@ == Set::<Seq<u8>>::empty(),
    {
        let s = NullifierProof(Vec::new());
        assert(s.spent() =~= Seq::<Seq<u8>>::empty());
        assert(s@ =~= Set::<Seq<u8>>::empty());
        s
    }

    /// Returns true if the nullifier has already been spent.
    pub fn contains(&self, nullifier: &Nullifier) -> (r: bool)
        ensures
            r == self@.contains(nullifier.0@),
    {
        let mut i: usize = 0;
        while i < self.0.len()
            invariant
                0 <= i <= self.0@.len(),
                forall|j: int| 0 <= j < i ==> self.spent()[j] != nullifier.0@,
            decreases self.0@.len() - i,
        {
            if same_bytes(&self.0[i].0, &nullifier.0) {
                assert(self.spent()[i as int] == nullifier.0@);
                return true;
            }
            i = i + 1;
        }
        false
    }

    /// Marks a nullifier as spent. Returns false if it was already present (replay).
    pub fn insert(&mut self, nullifier: Nullifier) -> (r: bool)
        ensures
            r == !old(self)@.contains(nullifier.0@),
            final(self)@ == old(self)@.insert(nullifier.0@),
    {
        if self.contains(&nullifier) {
            assert(self@ =~= self@.insert(nullifier.0@));
            return false;
        }
        proof {
            use_type_invariant(&*self);
        }
        let ghost old_spent = self.spent();
        let ghost bytes = nullifier.0@;
        let mut v: Vec<Nullifier> = Vec::new();
        std::mem::swap(&mut v, &mut self.0);
        v.push(nullifier);
        assert(v@.map_values(|n: Nullifier| n.0@) =~= old_spent.push(bytes));
        self.0 = v;
        assert forall|x: Seq<u8>| #[trigger]
            self.spent().contains(x) <==> old_spent.contains(x) || x == bytes by {
            if old_spent.contains(x) {
                let k = choose|k: int| 0 <= k < old_spent.len() && old_spent[k] == x;
                assert(self.spent()[k] == x);
            }
            if x == bytes {
                assert(self.spent()[old_spent.len() as int] == x);
            }
        }
        assert(self@ =~= old(self)@.insert(bytes));
        true
    }
}

/// The spent set of a `NullifierProof` made by `new` followed by inserting
/// `inserted[0]`, ..., `inserted[k - 1]`, each nullifier by its bytes.
pub open spec fn spent_after(inserted: Seq<Seq<u8>>) -> Set<Seq<u8>>
    decreases inserted.len(),
{
    if inserted.len() == 0 {
        Set::empty()
    } else {
        spent_after(inserted.drop_last()).insert(inserted.last())
    }
}

/// After any sequence of insertions into a new set, `contains` is true exactly
/// for the nullifiers inserted: a nullifier counts as spent if and only if it
/// was spent before. (`new` gives the empty set, each `insert` adds its
/// nullifier, and `contains` reads membership.)
pub proof fn spent_exactly_the_inserted(inserted: Seq<Seq<u8>>, m: Seq<u8>)
    ensures
        spent_after(inserted).contains(m) <==> inserted.contains(m),
    decreases inserted.len(),
{
    if inserted.len() > 0 {
        let rest = inserted.drop_last();
        spent_exactly_the_inserted(rest, m);
        if rest.contains(m) {
            let k = choose|k: int| 0 <= k < rest.len() && rest[k] == m;
            assert(inserted[k] == m);
        }
        if inserted.contains(m) && m != inserted.last() {
            let k = choose|k: int| 0 <= k < inserted.len() && inserted[k] == m;
            assert(rest[k] == m);
        }
        if m == inserted.last() {
            assert(inserted[inserted.len() - 1] == m);
        }
    }
}

} // verus!

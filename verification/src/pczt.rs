//! What this crate holds true of orchard's partially created bundle.
//!
//! A bundle in progress is orchard's `pczt::Bundle`: a list of actions, each
//! with the randomizer and the randomized key of its spend and, once it is
//! signed, its signature. Nothing here is proved. Each function makes one call
//! into orchard or zcash_primitives, and its contract says what that call's
//! source shows.

use vstd::prelude::*;

use orchard::circuit::ProvingKey as OrchardProvingKey;
use orchard::pczt::Bundle as PcztBundle;
use orchard::Bundle as OrchardBundle;
use pasta_curves::group::ff::PrimeField;
use rand_chacha::ChaCha12Rng;
use zcash_protocol::value::ZatBalance;

verus! {

/// orchard's partially created bundle, of which this crate sees what
/// [`pczt_slots`], [`pczt_payments`], [`pczt_own_keys`], [`pczt_proven`],
/// [`pczt_io_fault`] and [`pczt_extract_fault`] name.
#[verifier::external_type_specification]
#[verifier::external_body]
pub struct ExPcztBundle(PcztBundle);

/// A bundle with its proof and every spend signature, still without the
/// signature that binds it to a transaction.
#[verifier::external_body]
pub struct UnboundBundle {
    inner: OrchardBundle<orchard::pczt::Unbound, ZatBalance>,
}

/// A bundle with its proof and all of its signatures.
#[verifier::external_body]
pub struct SealedBundle {
    inner: OrchardBundle<orchard::bundle::Authorized, ZatBalance>,
}

/// What is known of one action's spend.
pub struct Slot {
    /// The randomizer of the signing key, in 32 bytes, while the bundle
    /// still holds it.
    pub randomizer: Option<Seq<u8>>,
    /// The randomized key that a signature is checked against, in 32 bytes.
    pub key: Seq<u8>,
    /// The signature of the spend, in 64 bytes, once it has one.
    pub signature: Option<Seq<u8>>,
    /// Whether the spend is a dummy whose key the bundle still holds, so
    /// that the bundle can sign it by itself.
    pub dummy: bool,
}

impl Slot {
    /// Whether the spend has its signature.
    pub open spec fn signed(self) -> bool {
        self.signature is Some
    }

    /// The slot once its spend has the given signature.
    pub open spec fn sign(self, signature: Seq<u8>) -> Slot {
        Slot { signature: Some(signature), ..self }
    }

    /// Whether the signature of the spend, if it has one, is valid for the
    /// digest under the key of the spend.
    pub open spec fn verified(self, sighash: Seq<u8>) -> bool {
        self.signature matches Some(signature) ==> signature_verifies(
            self.key,
            sighash,
            signature,
        )
    }

    /// Whether `after` is this slot once the bundle is prepared for signing
    /// over the digest: a dummy has a signature that is valid for the digest,
    /// and its key is gone; any other spend is as it was.
    pub open spec fn prepared_as(self, after: Slot, sighash: Seq<u8>) -> bool {
        &&& after.randomizer == self.randomizer
        &&& after.key == self.key
        &&& !after.dummy
        &&& if self.dummy {
            after.signature matches Some(signature) && signature_verifies(
                self.key,
                sighash,
                signature,
            )
        } else {
            after.signature == self.signature
        }
    }
}

/// What is known of one action's output.
pub struct Payment {
    /// The raw address that the output pays to, while the bundle still
    /// shows it.
    pub recipient: Option<Seq<u8>>,
    /// The value that the output pays, while the bundle still shows it.
    pub value: Option<u64>,
}

/// One action's output as read out of a bundle.
#[derive(Clone, Copy, Debug, PartialEq, Eq)]
pub struct PaymentInfo {
    /// The raw address that the output pays to.
    pub recipient: Option<[u8; 43]>,
    /// The value that the output pays.
    pub value: Option<u64>,
}

impl View for PaymentInfo {
    type V = Payment;

    open spec fn view(&self) -> Payment {
        Payment {
            recipient: match self.recipient {
                Some(r) => Some(r@),
                None => None,
            },
            value: self.value,
        }
    }
}

/// Whether the bundle can sign every dummy by itself: the key that the
/// dummy's own secret gives is the key of its slot.
pub open spec fn all_fit(slots: Seq<Slot>, own_keys: Seq<Option<Seq<u8>>>) -> bool {
    forall|i: int|
        0 <= i < slots.len() ==> ((#[trigger] slots[i]).dummy ==> own_keys[i] == Some(
            slots[i].key,
        ))
}

/// Whether every slot is signed.
pub open spec fn all_signed(slots: Seq<Slot>) -> bool {
    forall|i: int| 0 <= i < slots.len() ==> (#[trigger] slots[i]).signed()
}

/// Whether every signature in the slots is valid for the digest.
pub open spec fn all_verified(slots: Seq<Slot>, sighash: Seq<u8>) -> bool {
    forall|i: int| 0 <= i < slots.len() ==> (#[trigger] slots[i]).verified(sighash)
}

/// The key and the signature of each spend, where every spend is signed.
pub open spec fn signed_spends(slots: Seq<Slot>) -> Seq<(Seq<u8>, Seq<u8>)> {
    Seq::new(slots.len(), |i: int| (slots[i].key, slots[i].signature.unwrap()))
}

/// One action's spend as read out of a bundle.
#[derive(Clone, Copy)]
pub struct SlotInfo {
    /// The randomizer of the signing key.
    pub randomizer: Option<[u8; 32]>,
    /// The randomized key.
    pub key: [u8; 32],
    /// The signature of the spend.
    pub signature: Option<[u8; 64]>,
    /// Whether the spend is a dummy whose key the bundle still holds.
    pub dummy: bool,
}

impl View for SlotInfo {
    type V = Slot;

    open spec fn view(&self) -> Slot {
        Slot {
            randomizer: match self.randomizer {
                Some(r) => Some(r@),
                None => None,
            },
            key: self.key@,
            signature: match self.signature {
                Some(s) => Some(s@),
                None => None,
            },
            dummy: self.dummy,
        }
    }
}

impl SlotInfo {
    /// Whether the spend has its signature.
    pub fn is_signed(&self) -> (r: bool)
        ensures
            r == self@.signed(),
    {
        self.signature.is_some()
    }
}

/// Why orchard did not finalize the inputs and outputs of a bundle.
#[derive(Clone, Copy, PartialEq, Eq, Structural)]
pub enum IoFault {
    /// An action does not keep to the bundle's rule on addresses.
    CrossAddress,
    /// The commitments to the values do not fit the values.
    ValueCommitment,
    /// A dummy spend could not be signed.
    DummySignature,
}

/// Why orchard did not extract a bundle.
#[derive(Clone, Copy, PartialEq, Eq, Structural)]
pub enum ExtractFault {
    /// A spend lacks its signature.
    Unsigned,
    /// The bundle lacks its proof.
    Unproven,
    /// The balance of the values does not fit the protocol's range.
    Balance,
    /// The bundle has no action.
    Empty,
    /// The bundle is not fit for a transaction in another way.
    Unfit,
}

/// The actions of a bundle in progress, in their order.
pub uninterp spec fn pczt_slots(bundle: PcztBundle) -> Seq<Slot>;

/// The outputs of the actions of a bundle in progress, in the order of the
/// actions.
pub uninterp spec fn pczt_payments(bundle: PcztBundle) -> Seq<Payment>;

/// For each action of a bundle in progress, the key that the secret of its
/// dummy spend gives once it is randomized, in 32 bytes; `None` where the
/// bundle does not hold such a secret or not the randomizer.
pub uninterp spec fn pczt_own_keys(bundle: PcztBundle) -> Seq<Option<Seq<u8>>>;

/// Whether a bundle in progress holds its proof.
pub uninterp spec fn pczt_proven(bundle: PcztBundle) -> bool;

/// Why orchard does not finalize the inputs and outputs of a bundle in
/// progress; `None` where it does.
pub uninterp spec fn pczt_io_fault(bundle: PcztBundle) -> Option<IoFault>;

/// Why orchard extracts no bundle from a bundle in progress; `None` where it
/// extracts one.
pub uninterp spec fn pczt_extract_fault(bundle: PcztBundle) -> Option<ExtractFault>;

/// The key and the signature of each spend of an extracted bundle, in the
/// order of the actions.
pub uninterp spec fn unbound_spends(bundle: UnboundBundle) -> Seq<(Seq<u8>, Seq<u8>)>;

/// Whether a signature is valid for a digest under a randomized key.
pub uninterp spec fn signature_verifies(key: Seq<u8>, sighash: Seq<u8>, signature: Seq<u8>) -> bool;

/// The version 5 encoding of a sealed bundle, where it has one.
pub uninterp spec fn sealed_encoding(bundle: SealedBundle) -> Option<Seq<u8>>;

/// Calls `len` on `orchard::pczt::Bundle::actions`.
#[verifier::external_body]
pub(crate) fn slot_count(bundle: &PcztBundle) -> (n: usize)
    ensures
        n == pczt_slots(*bundle).len(),
        n == pczt_payments(*bundle).len(),
        n == pczt_own_keys(*bundle).len(),
{
    bundle.actions().len()
}

/// Reads the output of action `i` through the getters `recipient` and
/// `value` of `orchard::pczt::Output`.
#[verifier::external_body]
pub(crate) fn payment_at(bundle: &PcztBundle, i: usize) -> (payment: PaymentInfo)
    requires
        i < pczt_payments(*bundle).len(),
    ensures
        payment@ == pczt_payments(*bundle)[i as int],
{
    let output = bundle.actions()[i].output();
    PaymentInfo {
        recipient: output.recipient().map(|r| r.to_raw_address_bytes()),
        value: output.value().map(|v| v.inner()),
    }
}

/// Reads the spend of action `i` through the getters `alpha`, `rk`,
/// `spend_auth_sig` and `dummy_sk` of `orchard::pczt::Spend`.
#[verifier::external_body]
pub(crate) fn slot_at(bundle: &PcztBundle, i: usize) -> (slot: SlotInfo)
    requires
        i < pczt_slots(*bundle).len(),
    ensures
        slot@ == pczt_slots(*bundle)[i as int],
{
    let spend = bundle.actions()[i].spend();
    SlotInfo {
        randomizer: spend.alpha().map(|a| a.to_repr()),
        key: <[u8; 32]>::from(spend.rk()),
        signature: spend.spend_auth_sig().as_ref().map(<[u8; 64]>::from),
        dummy: spend.dummy_sk().is_some(),
    }
}

/// Derives the key of the dummy spend of action `i` as
/// `orchard::pczt::Action::sign` does: `SpendAuthorizingKey::from` on what
/// the getter `dummy_sk` gives, `randomize` with what `alpha` gives, and
/// `VerificationKey::from` on the result.
#[verifier::external_body]
pub(crate) fn own_key_at(bundle: &PcztBundle, i: usize) -> (key: Option<[u8; 32]>)
    requires
        i < pczt_own_keys(*bundle).len(),
    ensures
        pczt_own_keys(*bundle)[i as int] == match key {
            Some(k) => Some(k@),
            None => None,
        },
{
    let spend = bundle.actions()[i].spend();
    let secret = spend.dummy_sk().as_ref()?;
    let alpha = spend.alpha().as_ref()?;
    let signing = orchard::keys::SpendAuthorizingKey::from(secret).randomize(alpha);
    let key = orchard::primitives::redpallas::VerificationKey::from(&signing);
    Some(<[u8; 32]>::from(&key))
}

/// Calls `orchard::pczt::Action::apply_signature` on action `i`. Trusted: the
/// signature is kept if and only if it is valid for the digest under the
/// action's randomized key; no other action changes, and the outputs, the
/// proof and the keys of the dummies stay; a refused signature changes
/// nothing.
#[verifier::external_body]
pub(crate) fn apply_signature(
    bundle: &mut PcztBundle,
    i: usize,
    sighash: &[u8; 32],
    signature: &[u8; 64],
) -> (kept: bool)
    requires
        i < pczt_slots(*old(bundle)).len(),
    ensures
        kept == signature_verifies(pczt_slots(*old(bundle))[i as int].key, sighash@, signature@),
        kept ==> pczt_slots(*final(bundle)) == pczt_slots(*old(bundle)).update(
            i as int,
            pczt_slots(*old(bundle))[i as int].sign(signature@),
        ),
        pczt_proven(*final(bundle)) == pczt_proven(*old(bundle)),
        pczt_payments(*final(bundle)) == pczt_payments(*old(bundle)),
        pczt_own_keys(*final(bundle)) == pczt_own_keys(*old(bundle)),
        !kept ==> *final(bundle) == *old(bundle),
{
    let signature = orchard::primitives::redpallas::Signature::from(*signature);
    bundle.actions_mut()[i].apply_signature(*sighash, signature).is_ok()
}

/// Calls `orchard::pczt::Bundle::create_proof`. Trusted: the call leaves the
/// actions, spends and outputs, as they are; where it succeeds on a bundle that has an action,
/// the bundle holds its proof; and a failure leaves the whole bundle as it
/// is.
#[verifier::external_body]
pub(crate) fn create_proof(
    bundle: &mut PcztBundle,
    key: &OrchardProvingKey,
    rng: &mut ChaCha12Rng,
) -> (proved: bool)
    ensures
        pczt_slots(*final(bundle)) == pczt_slots(*old(bundle)),
        pczt_payments(*final(bundle)) == pczt_payments(*old(bundle)),
        proved && pczt_slots(*old(bundle)).len() > 0 ==> pczt_proven(*final(bundle)),
        !proved ==> *final(bundle) == *old(bundle),
{
    bundle.create_proof(key, rng).is_ok()
}

/// Calls `orchard::pczt::Bundle::finalize_io`. Trusted: whether and why the
/// call refuses depends on the bundle alone. Where it succeeds, every dummy
/// spend has a signature that is valid for the digest (a signature that a
/// key has made over a digest is valid for that digest under that key:
/// this is held of the signature scheme), its key is gone, and
/// nothing else of the actions has changed. In any case the proof and the
/// outputs stay and no action loses its signature, its randomizer or its key. A refusal
/// before the signing of the dummy spends leaves the bundle and the generator
/// as they are; the signing of a dummy fails only where the key that its
/// own secret gives is not the key of its slot.
#[verifier::external_body]
pub(crate) fn finalize_io(bundle: &mut PcztBundle, sighash: &[u8; 32], rng: &mut ChaCha12Rng) -> (r:
    Result<(), IoFault>)
    ensures
        r == match pczt_io_fault(*old(bundle)) {
            Some(fault) => Err::<(), IoFault>(fault),
            None => Ok::<(), IoFault>(()),
        },
        pczt_proven(*final(bundle)) == pczt_proven(*old(bundle)),
        pczt_payments(*final(bundle)) == pczt_payments(*old(bundle)),
        pczt_slots(*final(bundle)).len() == pczt_slots(*old(bundle)).len(),
        forall|i: int|
            0 <= i < pczt_slots(*old(bundle)).len() ==> {
                let before = #[trigger] pczt_slots(*old(bundle))[i];
                let after = pczt_slots(*final(bundle))[i];
                &&& after.randomizer == before.randomizer
                &&& after.key == before.key
                &&& before.signed() ==> after.signed()
            },
        r is Ok ==> forall|i: int|
            0 <= i < pczt_slots(*old(bundle)).len() ==> (#[trigger] pczt_slots(
                *old(bundle),
            )[i]).prepared_as(pczt_slots(*final(bundle))[i], sighash@),
        r matches Err(fault) && fault != IoFault::DummySignature ==> *final(bundle) == *old(bundle)
            && *final(rng) == *old(rng),
        r == Err::<(), IoFault>(IoFault::DummySignature) ==> !all_fit(
            pczt_slots(*old(bundle)),
            pczt_own_keys(*old(bundle)),
        ),
{
    bundle.finalize_io(*sighash, rng).map_err(
        |e| match e {
            orchard::pczt::IoFinalizerError::CrossAddressRestriction(_) => IoFault::CrossAddress,
            orchard::pczt::IoFinalizerError::DummySignature(_) => IoFault::DummySignature,
            _ => IoFault::ValueCommitment,
        },
    )
}

/// Calls `orchard::pczt::Bundle::extract`. Trusted: whether and why the call
/// refuses depends on the bundle alone. It refuses a bundle without an
/// action, and no other as empty; it refuses as unsigned only where a spend
/// lacks its signature, and as unproven only where the proof is missing.
/// The bundle that comes back has the keys and signatures of the spends, in
/// the order of the actions.
#[verifier::external_body]
pub(crate) fn extract(bundle: &PcztBundle) -> (r: Result<UnboundBundle, ExtractFault>)
    ensures
        match r {
            Ok(unbound) => {
                &&& pczt_extract_fault(*bundle) is None
                &&& pczt_slots(*bundle).len() > 0
                &&& all_signed(pczt_slots(*bundle))
                &&& unbound_spends(unbound) == signed_spends(pczt_slots(*bundle))
            },
            Err(fault) => {
                &&& pczt_extract_fault(*bundle) == Some(fault)
                &&& fault == ExtractFault::Empty <==> pczt_slots(*bundle).len() == 0
                &&& fault == ExtractFault::Unsigned ==> !all_signed(pczt_slots(*bundle))
                &&& fault == ExtractFault::Unproven ==> !pczt_proven(*bundle)
            },
        },
{
    match bundle.extract::<ZatBalance>() {
        Ok(Some(inner)) => Ok(UnboundBundle { inner }),
        Ok(None) => Err(ExtractFault::Empty),
        Err(orchard::pczt::TxExtractorError::MissingSpendAuthSig) => Err(ExtractFault::Unsigned),
        Err(orchard::pczt::TxExtractorError::MissingProof) => Err(ExtractFault::Unproven),
        Err(orchard::pczt::TxExtractorError::ValueSumOutOfRange) => Err(ExtractFault::Balance),
        Err(_) => Err(ExtractFault::Unfit),
    }
}

/// Calls `apply_binding_signature` on the extracted `orchard::Bundle`.
/// Trusted: a bundle comes back if and only if the signature of every spend
/// is valid for the digest under the key of that spend; where none comes
/// back the generator is as it was.
#[verifier::external_body]
pub(crate) fn bind(bundle: UnboundBundle, sighash: &[u8; 32], rng: &mut ChaCha12Rng) -> (r: Option<
    SealedBundle,
>)
    ensures
        r is Some <==> forall|i: int|
            0 <= i < unbound_spends(bundle).len() ==> signature_verifies(
                (#[trigger] unbound_spends(bundle)[i]).0,
                sighash@,
                unbound_spends(bundle)[i].1,
            ),
        r is None ==> *final(rng) == *old(rng),
{
    bundle.inner.apply_binding_signature(*sighash, rng).map(|inner| SealedBundle { inner })
}

/// Calls `zcash_primitives::transaction::components::orchard::write_v5_bundle`
/// on an empty vector. Trusted: what is written depends on the bundle alone,
/// and is never empty.
#[verifier::external_body]
pub(crate) fn encode_v5(bundle: &SealedBundle) -> (r: Option<Vec<u8>>)
    ensures
        match r {
            Some(bytes) => sealed_encoding(*bundle) == Some(bytes@) && bytes@.len() > 0,
            None => sealed_encoding(*bundle) is None,
        },
{
    let mut bytes = Vec::new();
    zcash_primitives::transaction::components::orchard::write_v5_bundle(
        Some(&bundle.inner),
        &mut bytes,
    ).ok().map(|_| bytes)
}

} // verus!

//! The bundle and its way from built to sealed.

use vstd::prelude::*;

use orchard::pczt::Bundle as PcztBundle;

use crate::encoding::same_bytes;
use crate::error::Error;
use crate::pczt::{
    all_fit, all_signed, all_verified, apply_signature, bind, create_proof, encode_v5, extract,
    finalize_io, own_key_at, payment_at, pczt_extract_fault, pczt_io_fault, pczt_own_keys,
    pczt_payments, pczt_proven, pczt_slots, sealed_encoding, signed_spends, slot_at, slot_count,
    unbound_spends, ExtractFault, IoFault, Payment, PaymentInfo, SealedBundle, Slot,
};
use crate::proving::ProvingKey;
use crate::random::Random;
use crate::signing::{
    answers, any_answers, first_open, io_error, owed, pending_randomizers, prepared,
    preparing_refusal, seal_error, sealing_refusal, signing_outcome,
};
use crate::state::{Operation, State};

verus! {

/// A bundle that gathers signatures: the actions, the digest to sign, and
/// the source of randomness that the seal will draw on.
pub(crate) struct Signing {
    pub(crate) draft: PcztBundle,
    pub(crate) sighash: [u8; 32],
    pub(crate) binder: Random,
}

/// What a bundle holds in each of its phases.
pub(crate) enum Authorization {
    UnprovenAndUnauthorized(Option<PcztBundle>),
    UnprovenAndPartiallyAuthorized(Option<Signing>),
    ProofAndUnauthorized(Option<PcztBundle>),
    ProofAndPartiallyAuthorized(Option<Signing>),
    Authorized(Option<SealedBundle>),
}

/// The actions of one shielded transfer, on their way to a proof and to a
/// signature for every spend.
pub struct Bundle {
    auth: Authorization,
}

/// Makes the proof for the actions. A bundle without an action takes no
/// proof. Where the proof is made it becomes part of the bundle, whose
/// actions stay as they are; where none is made the bundle stays as it is.
fn step_create_proof(draft: &mut PcztBundle, pk: &ProvingKey, rng: &mut Random) -> (r: Result<
    (),
    Error,
>)
    ensures
        pczt_slots(*final(draft)) == pczt_slots(*old(draft)),
        pczt_payments(*final(draft)) == pczt_payments(*old(draft)),
        final(rng).seed() == old(rng).seed(),
        pczt_slots(*old(draft)).len() == 0 ==> r is Err && *final(rng) == *old(rng),
        r is Ok ==> pczt_proven(*final(draft)),
        r matches Err(e) ==> e == Error::ProofGenerationFailure && *final(draft) == *old(draft),
{
    if slot_count(draft) == 0 {
        return Err(Error::ProofGenerationFailure);
    }
    if create_proof(draft, &pk.inner, rng.generator()) {
        Ok(())
    } else {
        Err(Error::ProofGenerationFailure)
    }
}

/// Gives a name of this crate to the reason why the inputs and outputs were
/// not finalized.
pub fn prepare_error(fault: IoFault) -> (e: Error)
    ensures
        e == io_error(fault),
{
    match fault {
        IoFault::CrossAddress => Error::CapabilityViolation,
        IoFault::ValueCommitment => Error::ValueBalance,
        IoFault::DummySignature => Error::SignatureMismatch,
    }
}

/// Whether the bundle can sign every dummy by itself.
fn dummies_fit(draft: &PcztBundle) -> (r: bool)
    ensures
        r == all_fit(pczt_slots(*draft), pczt_own_keys(*draft)),
{
    let n = slot_count(draft);
    let mut i: usize = 0;
    while i < n
        invariant
            i <= n,
            n == pczt_slots(*draft).len(),
            n == pczt_own_keys(*draft).len(),
            forall|j: int|
                0 <= j < i ==> ((#[trigger] pczt_slots(*draft)[j]).dummy ==> pczt_own_keys(
                    *draft,
                )[j] == Some(pczt_slots(*draft)[j].key)),
        decreases n - i,
    {
        let slot = slot_at(draft, i);
        if slot.dummy {
            let fits = match own_key_at(draft, i) {
                Some(key) => same_bytes(&key, &slot.key),
                None => false,
            };
            if !fits {
                assert(pczt_slots(*draft)[i as int].dummy);
                return false;
            }
        }
        i += 1;
    }
    true
}

/// Binds the actions to the digest and signs the dummy spends over it. A
/// bundle that cannot sign its dummies is refused before anything is done
/// to it.
fn step_prepare(draft: &mut PcztBundle, rng: &mut Random, sighash: &[u8; 32]) -> (r: Result<
    (),
    Error,
>)
    ensures
        pczt_proven(*final(draft)) == pczt_proven(*old(draft)),
        pczt_payments(*final(draft)) == pczt_payments(*old(draft)),
        final(rng).seed() == old(rng).seed(),
        match preparing_refusal(
            pczt_slots(*old(draft)),
            pczt_own_keys(*old(draft)),
            pczt_io_fault(*old(draft)),
        ) {
            Some(e) => {
                &&& r == Err::<(), Error>(e)
                &&& *final(draft) == *old(draft)
                &&& *final(rng) == *old(rng)
            },
            None => r is Ok && prepared(
                pczt_slots(*old(draft)),
                pczt_slots(*final(draft)),
                sighash@,
            ),
        },
{
    if !dummies_fit(draft) {
        return Err(Error::SignatureMismatch);
    }
    let ghost before = *rng;
    let r = finalize_io(draft, sighash, rng.generator());
    match r {
        Ok(()) => Ok(()),
        Err(fault) => {
            proof {
                Random::lemma_same(*rng, before);
            }
            Err(prepare_error(fault))
        },
    }
}

/// Hands a signature to the action that it is for.
fn step_append_signature(
    draft: &mut PcztBundle,
    sighash: &[u8; 32],
    expected_alpha: &[u8; 32],
    signature: &[u8; 64],
) -> (r: Result<(), Error>)
    ensures
        pczt_proven(*final(draft)) == pczt_proven(*old(draft)),
        pczt_payments(*final(draft)) == pczt_payments(*old(draft)),
        match signing_outcome(pczt_slots(*old(draft)), sighash@, expected_alpha@, signature@) {
            Ok(slots) => r is Ok && pczt_slots(*final(draft)) == slots,
            Err(e) => r == Err::<(), Error>(e) && *final(draft) == *old(draft),
        },
{
    let ghost slots = pczt_slots(*draft);
    let n = slot_count(draft);
    let mut seen = false;
    let mut i: usize = 0;
    while i < n
        invariant
            i <= n,
            n == slots.len(),
            *draft == *old(draft),
            slots == pczt_slots(*draft),
            first_open(slots, expected_alpha@, 0) == first_open(slots, expected_alpha@, i as int),
            seen == any_answers(slots, expected_alpha@, i as int),
        decreases n - i,
    {
        let slot = slot_at(draft, i);
        let hit = match slot.randomizer {
            Some(r) => same_bytes(&r, expected_alpha),
            None => false,
        };
        assert(hit == answers(slots[i as int], expected_alpha@));
        if hit && !slot.is_signed() {
            return if apply_signature(draft, i, sighash, signature) {
                Ok(())
            } else {
                Err(Error::SignatureMismatch)
            };
        }
        proof {
            if hit {
                assert(any_answers(slots, expected_alpha@, i + 1));
            } else if any_answers(slots, expected_alpha@, i + 1) {
                let j = choose|j: int|
                    0 <= j < i + 1 && j < slots.len() && answers(
                        #[trigger] slots[j],
                        expected_alpha@,
                    );
                assert(j < i);
            }
        }
        seen = seen || hit;
        i += 1;
    }
    if seen {
        Err(Error::DuplicateSignature)
    } else {
        Err(Error::SignatureMismatch)
    }
}

/// Whether every action has its signature.
fn fully_signed(draft: &PcztBundle) -> (r: bool)
    ensures
        r == all_signed(pczt_slots(*draft)),
{
    let n = slot_count(draft);
    let mut i: usize = 0;
    while i < n
        invariant
            i <= n,
            n == pczt_slots(*draft).len(),
            forall|j: int| 0 <= j < i ==> (#[trigger] pczt_slots(*draft)[j]).signed(),
        decreases n - i,
    {
        if !slot_at(draft, i).is_signed() {
            return false;
        }
        i += 1;
    }
    true
}

/// Gives a name of this crate to the reason why no bundle was extracted.
pub fn finalize_error(fault: ExtractFault) -> (e: Error)
    ensures
        e == seal_error(fault),
{
    match fault {
        ExtractFault::Unsigned => Error::IncompleteAuthorization,
        ExtractFault::Balance => Error::ValueBalance,
        _ => Error::ProofGenerationFailure,
    }
}

/// Seals the actions: checks that none lacks its signature, extracts the
/// bundle and binds it to the digest that the signatures were gathered for.
fn step_finalize(signing: &mut Signing) -> (r: Result<SealedBundle, Error>)
    ensures
        match sealing_refusal(
            pczt_slots(old(signing).draft),
            old(signing).sighash@,
            pczt_extract_fault(old(signing).draft),
        ) {
            Some(e) => r == Err::<SealedBundle, Error>(e) && *final(signing) == *old(signing),
            None => r is Ok,
        },
        pczt_extract_fault(old(signing).draft) == Some(ExtractFault::Unsigned) ==> !all_signed(
            pczt_slots(old(signing).draft),
        ),
{
    if !fully_signed(&signing.draft) {
        return Err(Error::IncompleteAuthorization);
    }
    match extract(&signing.draft) {
        Ok(unbound) => {
            let ghost slots = pczt_slots(signing.draft);
            let ghost before = signing.binder;
            proof {
                let spends = unbound_spends(unbound);
                assert(spends == signed_spends(slots));
                if all_verified(slots, signing.sighash@) {
                    assert forall|i: int| 0 <= i < spends.len() implies signature_holds(
                        #[trigger] spends[i],
                        signing.sighash@,
                    ) by {
                        assert(slots[i].verified(signing.sighash@));
                    }
                }
                if forall|i: int|
                    0 <= i < spends.len() ==> signature_holds(
                        #[trigger] spends[i],
                        signing.sighash@,
                    ) {
                    assert forall|i: int| 0 <= i < slots.len() implies (
                    #[trigger] slots[i]).verified(signing.sighash@) by {
                        assert(signature_holds(spends[i], signing.sighash@));
                    }
                }
            }
            match bind(unbound, &signing.sighash, signing.binder.generator()) {
                Some(sealed) => Ok(sealed),
                None => {
                    proof {
                        Random::lemma_same(signing.binder, before);
                    }
                    Err(Error::SignatureMismatch)
                },
            }
        },
        Err(fault) => Err(finalize_error(fault)),
    }
}

/// Whether the signature of a spend is valid for the digest under its key.
pub open spec fn signature_holds(spend: (Seq<u8>, Seq<u8>), sighash: Seq<u8>) -> bool {
    crate::pczt::signature_verifies(spend.0, sighash, spend.1)
}

impl Bundle {
    /// Whether the bundle holds what its phase needs. A bundle that this
    /// crate hands out always does.
    pub closed spec fn is_live(&self) -> bool {
        match self.auth {
            Authorization::UnprovenAndUnauthorized(held) => held is Some,
            Authorization::UnprovenAndPartiallyAuthorized(held) => held is Some,
            Authorization::ProofAndUnauthorized(held) => held is Some,
            Authorization::ProofAndPartiallyAuthorized(held) => held is Some,
            Authorization::Authorized(held) => held is Some,
        }
    }

    /// The phase the bundle is in.
    pub closed spec fn spec_phase(&self) -> State {
        match self.auth {
            Authorization::UnprovenAndUnauthorized(_) => State::UnprovenAndUnauthorized,
            Authorization::UnprovenAndPartiallyAuthorized(_) => {
                State::UnprovenAndPartiallyAuthorized
            },
            Authorization::ProofAndUnauthorized(_) => State::ProofAndUnauthorized,
            Authorization::ProofAndPartiallyAuthorized(_) => State::ProofAndPartiallyAuthorized,
            Authorization::Authorized(_) => State::Authorized,
        }
    }

    /// The actions of a bundle in progress, in their order. A sealed bundle
    /// shows none.
    pub closed spec fn slots(&self) -> Seq<Slot> {
        match self.auth {
            Authorization::UnprovenAndUnauthorized(Some(draft)) => pczt_slots(draft),
            Authorization::ProofAndUnauthorized(Some(draft)) => pczt_slots(draft),
            Authorization::UnprovenAndPartiallyAuthorized(Some(signing)) => pczt_slots(
                signing.draft,
            ),
            Authorization::ProofAndPartiallyAuthorized(Some(signing)) => pczt_slots(
                signing.draft,
            ),
            _ => Seq::empty(),
        }
    }

    /// The outputs of the actions of a bundle in progress, in the order of
    /// the actions. A sealed bundle shows none.
    pub closed spec fn spec_payments(&self) -> Seq<Payment> {
        match self.auth {
            Authorization::UnprovenAndUnauthorized(Some(draft)) => pczt_payments(draft),
            Authorization::ProofAndUnauthorized(Some(draft)) => pczt_payments(draft),
            Authorization::UnprovenAndPartiallyAuthorized(Some(signing)) => pczt_payments(
                signing.draft,
            ),
            Authorization::ProofAndPartiallyAuthorized(Some(signing)) => pczt_payments(
                signing.draft,
            ),
            _ => Seq::empty(),
        }
    }

    /// Whether the bundle holds its proof. A sealed bundle does.
    pub closed spec fn proven(&self) -> bool {
        match self.auth {
            Authorization::UnprovenAndUnauthorized(Some(draft)) => pczt_proven(draft),
            Authorization::ProofAndUnauthorized(Some(draft)) => pczt_proven(draft),
            Authorization::UnprovenAndPartiallyAuthorized(Some(signing)) => pczt_proven(
                signing.draft,
            ),
            Authorization::ProofAndPartiallyAuthorized(Some(signing)) => pczt_proven(
                signing.draft,
            ),
            Authorization::Authorized(Some(_)) => true,
            _ => false,
        }
    }

    /// The digest that the signatures sign, while signatures are gathered.
    pub closed spec fn sighash(&self) -> Option<Seq<u8>> {
        match self.auth {
            Authorization::UnprovenAndPartiallyAuthorized(Some(signing)) => Some(signing.sighash@),
            Authorization::ProofAndPartiallyAuthorized(Some(signing)) => Some(signing.sighash@),
            _ => None,
        }
    }

    /// For each action of a bundle in progress, the key that the secret of
    /// its dummy spend gives, while the bundle holds that secret.
    pub closed spec fn own_keys(&self) -> Seq<Option<Seq<u8>>> {
        match self.auth {
            Authorization::UnprovenAndUnauthorized(Some(draft)) => pczt_own_keys(draft),
            Authorization::ProofAndUnauthorized(Some(draft)) => pczt_own_keys(draft),
            Authorization::UnprovenAndPartiallyAuthorized(Some(signing)) => pczt_own_keys(
                signing.draft,
            ),
            Authorization::ProofAndPartiallyAuthorized(Some(signing)) => pczt_own_keys(
                signing.draft,
            ),
            _ => Seq::empty(),
        }
    }

    /// Why orchard does not prepare the bundle for signing, before the
    /// bundle is prepared; `None` where it does.
    pub closed spec fn io_fault(&self) -> Option<IoFault> {
        match self.auth {
            Authorization::UnprovenAndUnauthorized(Some(draft)) => pczt_io_fault(draft),
            Authorization::ProofAndUnauthorized(Some(draft)) => pczt_io_fault(draft),
            _ => None,
        }
    }

    /// Why orchard extracts no bundle from this one, while signatures are
    /// gathered; `None` where it extracts one.
    pub closed spec fn extract_fault(&self) -> Option<ExtractFault> {
        match self.auth {
            Authorization::UnprovenAndPartiallyAuthorized(Some(signing)) => pczt_extract_fault(
                signing.draft,
            ),
            Authorization::ProofAndPartiallyAuthorized(Some(signing)) => pczt_extract_fault(
                signing.draft,
            ),
            _ => None,
        }
    }

    /// The version 5 encoding of the bundle, once it is sealed and where it
    /// has one.
    pub closed spec fn encoding(&self) -> Option<Seq<u8>> {
        match self.auth {
            Authorization::Authorized(Some(sealed)) => sealed_encoding(sealed),
            _ => None,
        }
    }

    /// The phase that an operation leads this bundle to, where the bundle
    /// allows the operation: a bundle allows what its phase allows, and
    /// nothing if it does not hold what its phase needs.
    pub open spec fn allows(&self, op: Operation) -> Option<State> {
        if self.is_live() {
            self.spec_phase().after(op)
        } else {
            None
        }
    }

    /// The name that [`Bundle::state`] gives.
    pub open spec fn state_label(&self) -> Seq<char> {
        if self.is_live() {
            self.spec_phase().label()
        } else {
            "Broken"@
        }
    }

    /// A bundle as the builder leaves it.
    pub(crate) fn built(draft: PcztBundle) -> (bundle: Bundle)
        ensures
            bundle.is_live(),
            bundle.phase() == State::UnprovenAndUnauthorized,
            bundle.slots() == pczt_slots(draft),
            bundle.spec_payments() == pczt_payments(draft),
            bundle.spec_payments().len() == bundle.slots().len(),
            bundle.proven() == pczt_proven(draft),
            bundle.io_fault() == pczt_io_fault(draft),
            bundle.sighash() is None,
    {
        let _ = slot_count(&draft);
        Bundle { auth: Authorization::UnprovenAndUnauthorized(Some(draft)) }
    }

    /// Whether the bundle holds what its phase needs.
    pub fn is_some(&self) -> (r: bool)
        ensures
            r == self.is_live(),
    {
        match &self.auth {
            Authorization::UnprovenAndUnauthorized(held) => held.is_some(),
            Authorization::UnprovenAndPartiallyAuthorized(held) => held.is_some(),
            Authorization::ProofAndUnauthorized(held) => held.is_some(),
            Authorization::ProofAndPartiallyAuthorized(held) => held.is_some(),
            Authorization::Authorized(held) => held.is_some(),
        }
    }

    /// The phase the bundle is in.
    #[verifier::when_used_as_spec(spec_phase)]
    pub fn phase(&self) -> (s: State)
        ensures
            s == self.spec_phase(),
    {
        match &self.auth {
            Authorization::UnprovenAndUnauthorized(_) => State::UnprovenAndUnauthorized,
            Authorization::UnprovenAndPartiallyAuthorized(_) => {
                State::UnprovenAndPartiallyAuthorized
            },
            Authorization::ProofAndUnauthorized(_) => State::ProofAndUnauthorized,
            Authorization::ProofAndPartiallyAuthorized(_) => State::ProofAndPartiallyAuthorized,
            Authorization::Authorized(_) => State::Authorized,
        }
    }

    /// The name of the phase the bundle is in. It changes only when an
    /// operation moves the bundle on.
    pub fn state(&self) -> (r: &'static str)
        ensures
            r@ == self.state_label(),
    {
        if self.is_some() {
            self.phase().name()
        } else {
            "Broken"
        }
    }

    /// The number of actions of a bundle in progress, dummies among them.
    pub fn action_count(&self) -> (n: usize)
        ensures
            n == self.slots().len(),
    {
        match &self.auth {
            Authorization::UnprovenAndUnauthorized(Some(draft)) => slot_count(draft),
            Authorization::ProofAndUnauthorized(Some(draft)) => slot_count(draft),
            Authorization::UnprovenAndPartiallyAuthorized(Some(signing)) => slot_count(
                &signing.draft,
            ),
            Authorization::ProofAndPartiallyAuthorized(Some(signing)) => slot_count(
                &signing.draft,
            ),
            _ => 0,
        }
    }

    /// What each action of a bundle in progress pays and to whom, in the
    /// order of the actions. A dummy output pays nothing.
    pub fn payments(&self) -> (r: Vec<PaymentInfo>)
        ensures
            r@.len() == self.spec_payments().len(),
            forall|i: int| 0 <= i < r@.len() ==> (#[trigger] r@[i])@ == self.spec_payments()[i],
    {
        match &self.auth {
            Authorization::UnprovenAndUnauthorized(Some(draft)) => Self::read_payments(draft),
            Authorization::ProofAndUnauthorized(Some(draft)) => Self::read_payments(draft),
            Authorization::UnprovenAndPartiallyAuthorized(Some(signing)) => Self::read_payments(
                &signing.draft,
            ),
            Authorization::ProofAndPartiallyAuthorized(Some(signing)) => Self::read_payments(
                &signing.draft,
            ),
            _ => Vec::new(),
        }
    }

    fn read_payments(draft: &PcztBundle) -> (r: Vec<PaymentInfo>)
        ensures
            r@.len() == pczt_payments(*draft).len(),
            forall|i: int|
                0 <= i < r@.len() ==> (#[trigger] r@[i])@ == pczt_payments(*draft)[i],
    {
        let n = slot_count(draft);
        let mut out: Vec<PaymentInfo> = Vec::new();
        let mut i: usize = 0;
        while i < n
            invariant
                i <= n,
                n == pczt_payments(*draft).len(),
                out@.len() == i,
                forall|j: int| 0 <= j < i ==> (#[trigger] out@[j])@ == pczt_payments(*draft)[j],
            decreases n - i,
        {
            out.push(payment_at(draft, i));
            i += 1;
        }
        out
    }

    /// The randomizers of the spends for which a signature is owed, in the
    /// order of the actions: the spends that are not signed and are no
    /// dummies, which the bundle signs by itself.
    pub fn pending_randomizers(&self) -> (r: Vec<[u8; 32]>)
        ensures
            r@.len() == pending_randomizers(self.slots()).len(),
            forall|i: int|
                0 <= i < r@.len() ==> (#[trigger] r@[i])@ == pending_randomizers(
                    self.slots(),
                )[i],
    {
        match &self.auth {
            Authorization::UnprovenAndUnauthorized(Some(draft)) => Self::open_randomizers(draft),
            Authorization::ProofAndUnauthorized(Some(draft)) => Self::open_randomizers(draft),
            Authorization::UnprovenAndPartiallyAuthorized(Some(signing)) => Self::open_randomizers(
                &signing.draft,
            ),
            Authorization::ProofAndPartiallyAuthorized(Some(signing)) => Self::open_randomizers(
                &signing.draft,
            ),
            _ => Vec::new(),
        }
    }

    fn open_randomizers(draft: &PcztBundle) -> (r: Vec<[u8; 32]>)
        ensures
            r@.len() == pending_randomizers(pczt_slots(*draft)).len(),
            forall|i: int|
                0 <= i < r@.len() ==> (#[trigger] r@[i])@ == pending_randomizers(
                    pczt_slots(*draft),
                )[i],
    {
        let ghost slots = pczt_slots(*draft);
        let n = slot_count(draft);
        let mut out: Vec<[u8; 32]> = Vec::new();
        let mut i: usize = 0;
        assert(slots.take(0) =~= Seq::empty());
        while i < n
            invariant
                i <= n,
                n == slots.len(),
                slots == pczt_slots(*draft),
                out@.len() == pending_randomizers(slots.take(i as int)).len(),
                forall|j: int|
                    0 <= j < out@.len() ==> (#[trigger] out@[j])@ == pending_randomizers(
                        slots.take(i as int),
                    )[j],
            decreases n - i,
        {
            let slot = slot_at(draft, i);
            proof {
                assert(slots.take(i + 1).drop_last() =~= slots.take(i as int));
                assert(slots.take(i + 1).last() == slots[i as int]);
                assert(owed(slot@) == (!slot@.signed() && !slot.dummy));
            }
            if !slot.is_signed() && !slot.dummy {
                match slot.randomizer {
                    Some(r) => {
                        out.push(r);
                    },
                    None => {},
                }
            }
            i += 1;
        }
        assert(slots.take(n as int) =~= slots);
        out
    }

    /// Makes the proof, which becomes part of the bundle. Allowed before the
    /// proof is there; the signatures gathered so far are kept. A bundle
    /// without an action takes no proof. A refusal leaves the bundle as it
    /// was, and leaves the source of randomness as it was unless orchard
    /// drew on it before it failed.
    pub fn create_proof(&mut self, pk: &ProvingKey, rng: &mut Random) -> (r: Result<(), Error>)
        ensures
            final(self).is_live() == old(self).is_live(),
            final(rng).seed() == old(rng).seed(),
            match old(self).allows(Operation::CreateProof) {
                None => r == Err::<(), Error>(Error::IllegalStateTransition) && *final(self)
                    == *old(self) && *final(rng) == *old(rng),
                Some(next) => match r {
                    Ok(()) => {
                        &&& final(self).phase() == next
                        &&& final(self).proven()
                        &&& final(self).slots() == old(self).slots()
                        &&& final(self).spec_payments() == old(self).spec_payments()
                        &&& final(self).sighash() == old(self).sighash()
                        &&& old(self).slots().len() > 0
                    },
                    Err(e) => {
                        &&& e == Error::ProofGenerationFailure
                        &&& *final(self) == *old(self)
                        &&& old(self).slots().len() == 0 ==> *final(rng) == *old(rng)
                    },
                },
            },
    {
        match &mut self.auth {
            Authorization::UnprovenAndUnauthorized(held) => {
                let mut draft = match held.take() {
                    Some(draft) => draft,
                    None => {
                        return Err(Error::IllegalStateTransition);
                    },
                };
                let r = step_create_proof(&mut draft, pk, rng);
                match r {
                    Ok(()) => {
                        self.auth = Authorization::ProofAndUnauthorized(Some(draft));
                    },
                    Err(_) => {
                        self.auth = Authorization::UnprovenAndUnauthorized(Some(draft));
                    },
                }
                r
            },
            Authorization::UnprovenAndPartiallyAuthorized(held) => {
                let mut signing = match held.take() {
                    Some(signing) => signing,
                    None => {
                        return Err(Error::IllegalStateTransition);
                    },
                };
                let r = step_create_proof(&mut signing.draft, pk, rng);
                match r {
                    Ok(()) => {
                        self.auth = Authorization::ProofAndPartiallyAuthorized(Some(signing));
                    },
                    Err(_) => {
                        self.auth = Authorization::UnprovenAndPartiallyAuthorized(Some(signing));
                    },
                }
                r
            },
            _ => Err(Error::IllegalStateTransition),
        }
    }

    /// Takes in the digest of the transaction, which every signature is to
    /// sign, and signs the dummy spends over it. Allowed once, before any
    /// signature. From then on one signature is owed for each spend that is
    /// no dummy. The proof stays if it is there. The bundle also sets aside
    /// a source of randomness of its own, forked from the one given, for the
    /// signature that will seal it.
    ///
    /// Whether the bundle is prepared depends on the bundle alone, never on
    /// the digest. A refusal leaves the bundle and the source of randomness
    /// as they were.
    pub fn prepare(&mut self, rng: &mut Random, sighash: [u8; 32]) -> (r: Result<(), Error>)
        ensures
            final(self).is_live() == old(self).is_live(),
            final(self).proven() == old(self).proven(),
            final(self).spec_payments() == old(self).spec_payments(),
            final(rng).seed() == old(rng).seed(),
            match old(self).allows(Operation::Prepare) {
                None => r == Err::<(), Error>(Error::IllegalStateTransition) && *final(self)
                    == *old(self) && *final(rng) == *old(rng),
                Some(next) => match preparing_refusal(
                    old(self).slots(),
                    old(self).own_keys(),
                    old(self).io_fault(),
                ) {
                    Some(e) => {
                        &&& r == Err::<(), Error>(e)
                        &&& *final(self) == *old(self)
                        &&& *final(rng) == *old(rng)
                    },
                    None => {
                        &&& r is Ok
                        &&& final(self).phase() == next
                        &&& final(self).sighash() == Some(sighash@)
                        &&& prepared(old(self).slots(), final(self).slots(), sighash@)
                    },
                },
            },
    {
        match &mut self.auth {
            Authorization::UnprovenAndUnauthorized(held) => {
                let mut draft = match held.take() {
                    Some(draft) => draft,
                    None => {
                        return Err(Error::IllegalStateTransition);
                    },
                };
                let r = step_prepare(&mut draft, rng, &sighash);
                match r {
                    Ok(()) => {
                        let binder = rng.fork();
                        self.auth = Authorization::UnprovenAndPartiallyAuthorized(
                            Some(Signing { draft, sighash, binder }),
                        );
                    },
                    Err(_) => {
                        self.auth = Authorization::UnprovenAndUnauthorized(Some(draft));
                    },
                }
                r
            },
            Authorization::ProofAndUnauthorized(held) => {
                let mut draft = match held.take() {
                    Some(draft) => draft,
                    None => {
                        return Err(Error::IllegalStateTransition);
                    },
                };
                let r = step_prepare(&mut draft, rng, &sighash);
                match r {
                    Ok(()) => {
                        let binder = rng.fork();
                        self.auth = Authorization::ProofAndPartiallyAuthorized(
                            Some(Signing { draft, sighash, binder }),
                        );
                    },
                    Err(_) => {
                        self.auth = Authorization::ProofAndUnauthorized(Some(draft));
                    },
                }
                r
            },
            _ => Err(Error::IllegalStateTransition),
        }
    }

    /// Takes in the signature of the spend whose signing key was randomized
    /// with `expected_alpha`. Allowed while signatures are gathered, in any
    /// order of the spends. The signature is checked against the digest that
    /// the bundle was prepared with. A refused signature leaves the bundle
    /// as it was. The source of randomness is not drawn on.
    pub fn append_signature(
        &mut self,
        expected_alpha: [u8; 32],
        signature: [u8; 64],
        rng: &mut Random,
    ) -> (r: Result<(), Error>)
        ensures
            final(self).is_live() == old(self).is_live(),
            final(self).proven() == old(self).proven(),
            final(self).spec_payments() == old(self).spec_payments(),
            *final(rng) == *old(rng),
            match old(self).allows(Operation::AppendSignature) {
                None => r == Err::<(), Error>(Error::IllegalStateTransition) && *final(self)
                    == *old(self),
                Some(next) => match signing_outcome(
                    old(self).slots(),
                    old(self).sighash().unwrap(),
                    expected_alpha@,
                    signature@,
                ) {
                    Ok(slots) => {
                        &&& r is Ok
                        &&& final(self).phase() == next
                        &&& final(self).slots() == slots
                        &&& final(self).sighash() == old(self).sighash()
                    },
                    Err(e) => r == Err::<(), Error>(e) && *final(self) == *old(self),
                },
            },
    {
        match &mut self.auth {
            Authorization::UnprovenAndPartiallyAuthorized(held) => {
                let mut signing = match held.take() {
                    Some(signing) => signing,
                    None => {
                        return Err(Error::IllegalStateTransition);
                    },
                };
                let r = step_append_signature(
                    &mut signing.draft,
                    &signing.sighash,
                    &expected_alpha,
                    &signature,
                );
                self.auth = Authorization::UnprovenAndPartiallyAuthorized(Some(signing));
                r
            },
            Authorization::ProofAndPartiallyAuthorized(held) => {
                let mut signing = match held.take() {
                    Some(signing) => signing,
                    None => {
                        return Err(Error::IllegalStateTransition);
                    },
                };
                let r = step_append_signature(
                    &mut signing.draft,
                    &signing.sighash,
                    &expected_alpha,
                    &signature,
                );
                self.auth = Authorization::ProofAndPartiallyAuthorized(Some(signing));
                r
            },
            _ => Err(Error::IllegalStateTransition),
        }
    }

    /// Seals the bundle. Allowed once the bundle is proved and prepared.
    ///
    /// The bundle is sealed if and only if every spend is signed, orchard
    /// finds nothing unfit in it, and every signature is valid for the digest
    /// that the bundle was prepared with. It is refused with
    /// `IncompleteAuthorization` if and only if a spend lacks its signature.
    /// A refusal leaves the bundle as it was.
    pub fn finalize(&mut self) -> (r: Result<(), Error>)
        ensures
            final(self).is_live() == old(self).is_live(),
            match old(self).allows(Operation::Finalize) {
                None => r == Err::<(), Error>(Error::IllegalStateTransition) && *final(self)
                    == *old(self),
                Some(next) => {
                    &&& r == Err::<(), Error>(Error::IncompleteAuthorization) <==> !all_signed(
                        old(self).slots(),
                    )
                    &&& match sealing_refusal(
                        old(self).slots(),
                        old(self).sighash().unwrap(),
                        old(self).extract_fault(),
                    ) {
                        Some(e) => r == Err::<(), Error>(e) && *final(self) == *old(self),
                        None => r is Ok && final(self).phase() == next && final(self).proven(),
                    }
                },
            },
    {
        match &mut self.auth {
            Authorization::ProofAndPartiallyAuthorized(held) => {
                let mut signing = match held.take() {
                    Some(signing) => signing,
                    None => {
                        return Err(Error::IllegalStateTransition);
                    },
                };
                match step_finalize(&mut signing) {
                    Ok(sealed) => {
                        self.auth = Authorization::Authorized(Some(sealed));
                        Ok(())
                    },
                    Err(e) => {
                        self.auth = Authorization::ProofAndPartiallyAuthorized(Some(signing));
                        Err(e)
                    },
                }
            },
            _ => Err(Error::IllegalStateTransition),
        }
    }

    /// The encoding of the sealed bundle for a version 5 transaction. It
    /// depends on the bundle alone. Refused before the bundle is sealed.
    pub fn serialized(&self) -> (r: Result<Vec<u8>, Error>)
        ensures
            match self.allows(Operation::Serialize) {
                None => r == Err::<Vec<u8>, Error>(Error::IllegalStateTransition),
                Some(_) => match self.encoding() {
                    Some(bytes) => r matches Ok(v) && v@ == bytes && bytes.len() > 0,
                    None => r == Err::<Vec<u8>, Error>(Error::Encode),
                },
            },
    {
        match &self.auth {
            Authorization::Authorized(Some(sealed)) => match encode_v5(sealed) {
                Some(bytes) => Ok(bytes),
                None => Err(Error::Encode),
            },
            _ => Err(Error::IllegalStateTransition),
        }
    }
}

} // verus!

//! The rules by which signatures find their spends, and by which a bundle is
//! sealed.

use vstd::prelude::*;

use crate::error::Error;
use crate::pczt::{
    all_fit, all_signed, all_verified, signature_verifies, ExtractFault, IoFault, Slot,
};

verus! {

/// Whether a slot has the given randomizer.
pub open spec fn answers(slot: Slot, randomizer: Seq<u8>) -> bool {
    slot.randomizer == Some(randomizer)
}

/// The first unsigned slot at or after `from` that has the given randomizer.
pub open spec fn first_open(slots: Seq<Slot>, randomizer: Seq<u8>, from: int) -> Option<int>
    decreases slots.len() - from,
{
    if from < 0 || from >= slots.len() {
        None
    } else if answers(slots[from], randomizer) && !slots[from].signed() {
        Some(from)
    } else {
        first_open(slots, randomizer, from + 1)
    }
}

/// Whether a slot before `to` has the given randomizer.
pub open spec fn any_answers(slots: Seq<Slot>, randomizer: Seq<u8>, to: int) -> bool {
    exists|i: int| 0 <= i < to && i < slots.len() && answers(#[trigger] slots[i], randomizer)
}

/// What comes of a signature handed in for a randomizer: the slots with one
/// more of them signed, or the reason why the signature is refused.
///
/// The signature goes to the first unsigned action that has the randomizer,
/// if it is valid for the digest under that action's key. Where every action
/// with the randomizer is signed already, the signature is a duplicate.
pub open spec fn signing_outcome(
    slots: Seq<Slot>,
    sighash: Seq<u8>,
    randomizer: Seq<u8>,
    signature: Seq<u8>,
) -> Result<Seq<Slot>, Error> {
    match first_open(slots, randomizer, 0) {
        Some(i) => if signature_verifies(slots[i].key, sighash, signature) {
            Ok(slots.update(i, slots[i].sign(signature)))
        } else {
            Err(Error::SignatureMismatch)
        },
        None => if any_answers(slots, randomizer, slots.len() as int) {
            Err(Error::DuplicateSignature)
        } else {
            Err(Error::SignatureMismatch)
        },
    }
}

/// Whether a signature from outside is owed for the slot: it has none, and
/// it is no dummy that the bundle signs by itself.
pub open spec fn owed(slot: Slot) -> bool {
    !slot.signed() && !slot.dummy
}

/// The number of slots for which a signature is owed.
pub open spec fn pending(slots: Seq<Slot>) -> nat
    decreases slots.len(),
{
    if slots.len() == 0 {
        0
    } else if owed(slots.last()) {
        pending(slots.drop_last()) + 1
    } else {
        pending(slots.drop_last())
    }
}

/// The randomizers of the slots for which a signature is owed, in the order
/// of the actions.
pub open spec fn pending_randomizers(slots: Seq<Slot>) -> Seq<Seq<u8>>
    decreases slots.len(),
{
    if slots.len() == 0 {
        Seq::empty()
    } else {
        let last = slots.last();
        let rest = pending_randomizers(slots.drop_last());
        match last.randomizer {
            Some(r) if owed(last) => rest.push(r),
            _ => rest,
        }
    }
}

/// The number of slots whose spend is no dummy: the spends that were asked
/// for.
pub open spec fn real_spends(slots: Seq<Slot>) -> nat
    decreases slots.len(),
{
    if slots.len() == 0 {
        0
    } else if slots.last().dummy {
        real_spends(slots.drop_last())
    } else {
        real_spends(slots.drop_last()) + 1
    }
}

/// Whether no slot is a dummy that the bundle has yet to sign.
pub open spec fn no_dummies(slots: Seq<Slot>) -> bool {
    forall|i: int| 0 <= i < slots.len() ==> !(#[trigger] slots[i]).dummy
}

/// Whether `after` are the slots `before` once the bundle is prepared for
/// signing over the digest: every dummy is signed over the digest, every
/// other spend is as it was.
pub open spec fn prepared(before: Seq<Slot>, after: Seq<Slot>, sighash: Seq<u8>) -> bool {
    &&& after.len() == before.len()
    &&& forall|i: int|
        0 <= i < before.len() ==> (#[trigger] before[i]).prepared_as(after[i], sighash)
}

/// Whether the later slots are the earlier ones with nothing lost: as many
/// slots, each with its randomizer and its key, and signed if it was.
pub open spec fn carried_over(before: Seq<Slot>, after: Seq<Slot>) -> bool {
    &&& after.len() == before.len()
    &&& forall|i: int|
        0 <= i < before.len() ==> {
            &&& (#[trigger] after[i]).randomizer == before[i].randomizer
            &&& after[i].key == before[i].key
            &&& before[i].signed() ==> after[i].signed()
        }
}

/// The error of this crate for a bundle whose inputs and outputs orchard
/// did not finalize.
pub open spec fn io_error(fault: IoFault) -> Error {
    match fault {
        IoFault::CrossAddress => Error::CapabilityViolation,
        IoFault::ValueCommitment => Error::ValueBalance,
        IoFault::DummySignature => Error::SignatureMismatch,
    }
}

/// Why a bundle is not prepared for signing; `None` where it is.
///
/// A dummy that the bundle cannot sign by itself comes first. Then comes
/// what orchard finds when it finalizes the inputs and outputs.
pub open spec fn preparing_refusal(
    slots: Seq<Slot>,
    own_keys: Seq<Option<Seq<u8>>>,
    fault: Option<IoFault>,
) -> Option<Error> {
    if !all_fit(slots, own_keys) {
        Some(Error::SignatureMismatch)
    } else {
        match fault {
            Some(fault) => Some(io_error(fault)),
            None => None,
        }
    }
}

/// Why a bundle that is proved and prepared is not sealed; `None` where it
/// is sealed.
///
/// A spend without a signature comes first. Then comes what orchard finds
/// unfit when it extracts the bundle, and last a signature that is not valid
/// for the digest.
pub open spec fn sealing_refusal(
    slots: Seq<Slot>,
    sighash: Seq<u8>,
    fault: Option<ExtractFault>,
) -> Option<Error> {
    if !all_signed(slots) {
        Some(Error::IncompleteAuthorization)
    } else {
        match fault {
            Some(fault) => Some(seal_error(fault)),
            None => if all_verified(slots, sighash) {
                None
            } else {
                Some(Error::SignatureMismatch)
            },
        }
    }
}

/// The error of this crate for a bundle that orchard did not extract.
pub open spec fn seal_error(fault: ExtractFault) -> Error {
    match fault {
        ExtractFault::Unsigned => Error::IncompleteAuthorization,
        ExtractFault::Balance => Error::ValueBalance,
        ExtractFault::Unproven => Error::ProofGenerationFailure,
        ExtractFault::Empty => Error::ProofGenerationFailure,
        ExtractFault::Unfit => Error::ProofGenerationFailure,
    }
}

/// What comes of a row of signatures handed in one after the other, each
/// with its randomizer first: refused ones change nothing.
pub open spec fn sign_all(
    slots: Seq<Slot>,
    sighash: Seq<u8>,
    offers: Seq<(Seq<u8>, Seq<u8>)>,
) -> Seq<Slot>
    decreases offers.len(),
{
    if offers.len() == 0 {
        slots
    } else {
        let before = sign_all(slots, sighash, offers.drop_last());
        match signing_outcome(before, sighash, offers.last().0, offers.last().1) {
            Ok(next) => next,
            Err(_) => before,
        }
    }
}

/// How many signatures of a row are taken.
pub open spec fn accepted(
    slots: Seq<Slot>,
    sighash: Seq<u8>,
    offers: Seq<(Seq<u8>, Seq<u8>)>,
) -> nat
    decreases offers.len(),
{
    if offers.len() == 0 {
        0
    } else {
        let before = sign_all(slots, sighash, offers.drop_last());
        let earlier = accepted(slots, sighash, offers.drop_last());
        match signing_outcome(before, sighash, offers.last().0, offers.last().1) {
            Ok(_) => earlier + 1,
            Err(_) => earlier,
        }
    }
}

/// Whether at most one unsigned slot has the given randomizer.
pub open spec fn one_open_answer(slots: Seq<Slot>, randomizer: Seq<u8>) -> bool {
    forall|i: int, j: int|
        0 <= i < slots.len() && 0 <= j < slots.len() && answers(#[trigger] slots[i], randomizer)
            && !slots[i].signed() && answers(#[trigger] slots[j], randomizer)
            && !slots[j].signed() ==> i == j
}

/// What `first_open` finds is the first unsigned slot with the randomizer.
pub proof fn lemma_first_open(slots: Seq<Slot>, randomizer: Seq<u8>, from: int)
    requires
        0 <= from,
    ensures
        match first_open(slots, randomizer, from) {
            Some(i) => {
                &&& from <= i < slots.len()
                &&& answers(slots[i], randomizer)
                &&& !slots[i].signed()
                &&& forall|j: int|
                    from <= j < i ==> !(answers(#[trigger] slots[j], randomizer)
                        && !slots[j].signed())
            },
            None => forall|j: int|
                from <= j < slots.len() ==> !(answers(#[trigger] slots[j], randomizer)
                    && !slots[j].signed()),
        },
    decreases slots.len() - from,
{
    if from < slots.len() && !(answers(slots[from], randomizer) && !slots[from].signed()) {
        lemma_first_open(slots, randomizer, from + 1);
    }
}

/// Signing one slot for which a signature is owed leaves one slot fewer
/// pending.
pub proof fn lemma_pending_after_sign(slots: Seq<Slot>, i: int, signature: Seq<u8>)
    requires
        0 <= i < slots.len(),
        owed(slots[i]),
    ensures
        pending(slots.update(i, slots[i].sign(signature))) + 1 == pending(slots),
    decreases slots.len(),
{
    let next = slots.update(i, slots[i].sign(signature));
    if i == slots.len() - 1 {
        assert(next.drop_last() =~= slots.drop_last());
    } else {
        let shorter = slots.drop_last();
        assert(next.drop_last() =~= shorter.update(i, shorter[i].sign(signature)));
        lemma_pending_after_sign(shorter, i, signature);
    }
}

/// In a bundle without dummies to sign, nothing is pending if and only if
/// every slot is signed.
pub proof fn lemma_none_pending(slots: Seq<Slot>)
    requires
        no_dummies(slots),
    ensures
        pending(slots) == 0 <==> all_signed(slots),
    decreases slots.len(),
{
    if slots.len() > 0 {
        let shorter = slots.drop_last();
        assert forall|i: int| 0 <= i < shorter.len() implies !(#[trigger] shorter[i]).dummy by {
            assert(!slots[i].dummy);
        }
        lemma_none_pending(shorter);
        assert(!slots[slots.len() - 1].dummy);
        if all_signed(slots) {
            assert forall|i: int| 0 <= i < shorter.len() implies (
            #[trigger] shorter[i]).signed() by {
                assert(slots[i].signed());
            }
            assert(slots[slots.len() - 1].signed());
        }
        if pending(slots) == 0 {
            assert forall|i: int| 0 <= i < slots.len() implies (#[trigger] slots[i]).signed() by {
                if i < shorter.len() {
                    assert(shorter[i].signed());
                }
            }
        }
    }
}

/// A signature that is taken signs exactly one spend: the first unsigned one
/// with its randomizer, for which it is valid. Every other slot stays as it
/// is, one slot fewer is pending, and the signatures stay valid for the
/// digest if they were.
pub proof fn lemma_accepted_signature(
    slots: Seq<Slot>,
    sighash: Seq<u8>,
    randomizer: Seq<u8>,
    signature: Seq<u8>,
)
    ensures
        signing_outcome(slots, sighash, randomizer, signature) matches Ok(next) ==> {
            &&& no_dummies(slots) ==> pending(next) + 1 == pending(slots) && no_dummies(next)
            &&& all_verified(slots, sighash) ==> all_verified(next, sighash)
            &&& carried_over(slots, next)
            &&& exists|i: int|
                {
                    &&& 0 <= i < slots.len()
                    &&& answers(#[trigger] slots[i], randomizer)
                    &&& !slots[i].signed()
                    &&& signature_verifies(slots[i].key, sighash, signature)
                    &&& next == slots.update(i, slots[i].sign(signature))
                }
        },
{
    lemma_first_open(slots, randomizer, 0);
    if let Ok(next) = signing_outcome(slots, sighash, randomizer, signature) {
        let i = first_open(slots, randomizer, 0).unwrap();
        if no_dummies(slots) {
            assert(!slots[i].dummy);
            lemma_pending_after_sign(slots, i, signature);
            assert forall|j: int| 0 <= j < next.len() implies !(#[trigger] next[j]).dummy by {
                assert(!slots[j].dummy);
            }
        }
        if all_verified(slots, sighash) {
            assert forall|j: int| 0 <= j < next.len() implies (#[trigger] next[j]).verified(
                sighash,
            ) by {
                if j != i {
                    assert(slots[j].verified(sighash));
                }
            }
        }
    }
}

/// A signature is refused as a mismatch if no action has its randomizer, or
/// if it is not valid for the first unsigned action that has it; as a
/// duplicate if every action that has its randomizer is signed.
pub proof fn lemma_refused_signature(
    slots: Seq<Slot>,
    sighash: Seq<u8>,
    randomizer: Seq<u8>,
    signature: Seq<u8>,
)
    ensures
        !any_answers(slots, randomizer, slots.len() as int) ==> signing_outcome(
            slots,
            sighash,
            randomizer,
            signature,
        ) == Err::<Seq<Slot>, Error>(Error::SignatureMismatch),
        signing_outcome(slots, sighash, randomizer, signature) == Err::<Seq<Slot>, Error>(
            Error::DuplicateSignature,
        ) <==> any_answers(slots, randomizer, slots.len() as int) && forall|i: int|
            0 <= i < slots.len() && answers(#[trigger] slots[i], randomizer) ==> slots[i].signed(),
{
    lemma_first_open(slots, randomizer, 0);
}

/// Once the one spend with a randomizer is signed, any further signature
/// for that randomizer is a duplicate.
pub proof fn lemma_second_signature_is_duplicate(
    slots: Seq<Slot>,
    sighash: Seq<u8>,
    randomizer: Seq<u8>,
    first: Seq<u8>,
    second: Seq<u8>,
)
    requires
        one_open_answer(slots, randomizer),
    ensures
        signing_outcome(slots, sighash, randomizer, first) matches Ok(next) ==> signing_outcome(
            next,
            sighash,
            randomizer,
            second,
        ) == Err::<Seq<Slot>, Error>(Error::DuplicateSignature),
{
    lemma_first_open(slots, randomizer, 0);
    if let Ok(next) = signing_outcome(slots, sighash, randomizer, first) {
        let i = first_open(slots, randomizer, 0).unwrap();
        lemma_first_open(next, randomizer, 0);
        assert(answers(next[i], randomizer));
        assert forall|j: int| 0 <= j < next.len() implies !(answers(#[trigger] next[j], randomizer)
            && !next[j].signed()) by {
            if j != i {
                assert(next[j] == slots[j]);
            }
        }
    }
}

/// Preparing a bundle in which nothing is signed leaves one signature owed
/// for each spend that is no dummy, and every signature that is there valid
/// for the digest.
pub proof fn lemma_prepared_owes_the_real_spends(
    before: Seq<Slot>,
    after: Seq<Slot>,
    sighash: Seq<u8>,
)
    requires
        prepared(before, after, sighash),
        forall|i: int| 0 <= i < before.len() ==> !(#[trigger] before[i]).signed(),
    ensures
        pending(after) == real_spends(before),
        no_dummies(after),
        all_verified(after, sighash),
        carried_over(before, after),
    decreases before.len(),
{
    assert forall|i: int| 0 <= i < after.len() implies !(#[trigger] after[i]).dummy
        && after[i].verified(sighash) by {
        assert(before[i].prepared_as(after[i], sighash));
        assert(!before[i].signed());
    }
    assert forall|i: int| 0 <= i < before.len() implies (#[trigger] after[i]).randomizer
        == before[i].randomizer && after[i].key == before[i].key && (before[i].signed()
        ==> after[i].signed()) by {
        assert(before[i].prepared_as(after[i], sighash));
    }
    if before.len() > 0 {
        let n = before.len() - 1;
        let b = before.drop_last();
        let a = after.drop_last();
        assert forall|i: int| 0 <= i < b.len() implies (#[trigger] b[i]).prepared_as(
            a[i],
            sighash,
        ) by {
            assert(before[i].prepared_as(after[i], sighash));
        }
        assert forall|i: int| 0 <= i < b.len() implies !(#[trigger] b[i]).signed() by {
            assert(!before[i].signed());
        }
        lemma_prepared_owes_the_real_spends(b, a, sighash);
        assert(before[n].prepared_as(after[n], sighash));
        assert(!before[n].signed());
    }
}

/// As many signatures are owed as spends are pending. However many are
/// handed in, each one that is taken settles one pending spend, so that
/// every spend is signed if and only if as many were taken as were pending.
pub proof fn lemma_signatures_owed(
    slots: Seq<Slot>,
    sighash: Seq<u8>,
    offers: Seq<(Seq<u8>, Seq<u8>)>,
)
    requires
        no_dummies(slots),
    ensures
        accepted(slots, sighash, offers) <= offers.len(),
        pending(sign_all(slots, sighash, offers)) + accepted(slots, sighash, offers) == pending(
            slots,
        ),
        all_signed(sign_all(slots, sighash, offers)) <==> accepted(slots, sighash, offers)
            == pending(slots),
        offers.len() < pending(slots) ==> !all_signed(sign_all(slots, sighash, offers)),
        carried_over(slots, sign_all(slots, sighash, offers)),
        no_dummies(sign_all(slots, sighash, offers)),
        all_verified(slots, sighash) ==> all_verified(sign_all(slots, sighash, offers), sighash),
    decreases offers.len(),
{
    if offers.len() > 0 {
        let before = sign_all(slots, sighash, offers.drop_last());
        lemma_signatures_owed(slots, sighash, offers.drop_last());
        lemma_accepted_signature(before, sighash, offers.last().0, offers.last().1);
    }
    lemma_none_pending(sign_all(slots, sighash, offers));
}

/// A bundle that is proved and prepared is sealed if and only if every spend
/// is signed, orchard finds nothing unfit, and every signature is valid for
/// the digest; and it is refused as incomplete if and only if a spend lacks
/// its signature.
pub proof fn lemma_seal(slots: Seq<Slot>, sighash: Seq<u8>, fault: Option<ExtractFault>)
    requires
        fault == Some(ExtractFault::Unsigned) ==> !all_signed(slots),
    ensures
        sealing_refusal(slots, sighash, fault) is None <==> all_signed(slots) && fault is None
            && all_verified(slots, sighash),
        sealing_refusal(slots, sighash, fault) == Some(Error::IncompleteAuthorization)
            <==> !all_signed(slots),
{
}

} // verus!

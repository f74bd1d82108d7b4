//! The builder: it gathers spends and outputs under one anchor and yields the
//! bundle.

use vstd::prelude::*;

use orchard::builder::Builder as OrchardBuilder;
use orchard::pczt::Bundle as PcztBundle;
use rand_chacha::ChaCha12Rng;

use crate::bundle::Bundle;
use crate::encoding::{is_base_element, lemma_top_byte_decides};
use crate::error::Error;
use crate::keys::{Address, FullViewingKey};
use crate::note::{Note, NoteView};
use crate::pczt::{pczt_payments, pczt_proven, pczt_slots, Payment};
use crate::random::Random;
use crate::signing::real_spends;
use crate::state::State;
use crate::tree::{MerklePath, PathView};

verus! {

/// orchard's builder, of which this crate sees what [`builder_setup`],
/// [`builder_spends`], [`builder_outputs`] and [`builder_fault`] name.
#[verifier::external_type_specification]
#[verifier::external_body]
pub struct ExOrchardBuilder(OrchardBuilder);

/// The greatest value that the protocol can express: the whole supply, in
/// the smallest unit.
pub const MAX_VALUE: u64 = 2_100_000_000_000_000;

/// What an orchard builder was made with.
pub struct Setup {
    /// The anchor that every spend must lead to, where the builder has one.
    pub anchor: Option<Seq<u8>>,
    /// Whether the bundle may spend notes.
    pub spends_enabled: bool,
    /// Whether the bundle may create notes.
    pub outputs_enabled: bool,
    /// Whether an action may pay to another address than it spends from.
    pub cross_address_enabled: bool,
    /// Whether the builder yields a bundle even where it holds no request.
    pub required: bool,
    /// The number of actions that the builder fills a bundle up to with
    /// dummies; two where it is `None`.
    pub minimum: Option<u8>,
}

/// A spend as an orchard builder holds it.
pub struct HeldSpend {
    /// The encoding of the full viewing key.
    pub fvk: Seq<u8>,
    /// The note to spend.
    pub note: NoteView,
    /// The Merkle path of the note.
    pub path: PathView,
}

/// An output as an orchard builder holds it.
pub struct HeldOutput {
    /// The outgoing viewing key, where the sender keeps one.
    pub ovk: Option<Seq<u8>>,
    /// The raw address of the recipient.
    pub recipient: Seq<u8>,
    /// The value to pay.
    pub value: u64,
    /// The memo, in 512 bytes.
    pub memo: Seq<u8>,
}

/// Why orchard did not take a spend.
#[derive(Clone, Copy, PartialEq, Eq, Structural)]
pub enum SpendFault {
    /// The builder takes no spends.
    Disabled,
    /// The path does not lead from the note to the anchor.
    AnchorMismatch,
    /// The key does not own the note.
    KeyMismatch,
    /// The builder wants the spend in another form.
    Unwitnessed,
}

/// Why orchard did not build a bundle.
#[derive(Clone, Copy, PartialEq, Eq, Structural)]
pub enum BuildFault {
    /// The values do not add up within the range.
    Balance,
    /// A spend does not lead to the anchor.
    Anchor,
    /// The requests do not fit the flags.
    Refused,
}

/// Whether orchard reads an anchor from these bytes: an anchor is an element
/// of the base field.
pub open spec fn anchor_decodes(bytes: Seq<u8>) -> bool {
    is_base_element(bytes)
}

/// What an orchard builder was made with.
pub uninterp spec fn builder_setup(builder: OrchardBuilder) -> Setup;

/// The spends that an orchard builder holds, in the order in which it took
/// them.
pub uninterp spec fn builder_spends(builder: OrchardBuilder) -> Seq<HeldSpend>;

/// The outputs that an orchard builder holds, in the order in which it took
/// them, change outputs last.
pub uninterp spec fn builder_outputs(builder: OrchardBuilder) -> Seq<HeldOutput>;

/// Why an orchard builder refuses to build before it looks at the values:
/// for its flags, its anchor, the version of its notes or the kind of its
/// bundle. `None` where it goes on to the values.
pub uninterp spec fn builder_fault(builder: OrchardBuilder) -> Option<BuildFault>;

/// The sum of the values of the notes of these spends.
pub open spec fn held_spent(spends: Seq<HeldSpend>) -> int
    decreases spends.len(),
{
    if spends.len() == 0 {
        0
    } else {
        held_spent(spends.drop_last()) + spends.last().note.value
    }
}

/// The sum of the values of these outputs.
pub open spec fn held_created(outputs: Seq<HeldOutput>) -> int
    decreases outputs.len(),
{
    if outputs.len() == 0 {
        0
    } else {
        held_created(outputs.drop_last()) + outputs.last().value
    }
}

/// The number of actions in the bundle of so many spends and outputs: no
/// fewer than two.
pub open spec fn action_count(spends: nat, outputs: nat) -> nat {
    if spends >= outputs && spends >= 2 {
        spends
    } else if outputs >= 2 {
        outputs
    } else {
        2
    }
}

/// What the outputs ask the bundle to pay, in their order.
pub open spec fn asked(outputs: Seq<HeldOutput>) -> Seq<Payment> {
    Seq::new(
        outputs.len(),
        |n: int| Payment { recipient: Some(outputs[n].recipient), value: Some(outputs[n].value) },
    )
}

/// The places as numbers.
pub open spec fn places_of(places: Seq<usize>) -> Seq<int> {
    Seq::new(places.len(), |n: int| places[n] as int)
}

/// Whether an output that was asked for stands at action `i`.
pub open spec fn placed(places: Seq<int>, i: int) -> bool {
    exists|n: int| 0 <= n < places.len() && #[trigger] places[n] == i
}

/// Whether the actions pay what was asked and nothing else: each output
/// that was asked for stands at the action of its place, no two at one
/// action, and every other action pays the value zero.
pub open spec fn pays(payments: Seq<Payment>, asked: Seq<Payment>, places: Seq<int>) -> bool {
    &&& places.len() == asked.len()
    &&& forall|n: int|
        0 <= n < asked.len() ==> 0 <= #[trigger] places[n] < payments.len()
            && payments[places[n]] == asked[n]
    &&& forall|n: int, m: int|
        0 <= n < m < places.len() ==> #[trigger] places[n] != #[trigger] places[m]
    &&& forall|i: int|
        0 <= i < payments.len() && !placed(places, i) ==> (#[trigger] payments[i]).value
            == Some(0u64)
}

/// Why a builder with the given anchor, which takes spends, does not take
/// this one; `None` where it takes it.
pub uninterp spec fn spend_fault(
    anchor: Seq<u8>,
    fvk: Seq<u8>,
    note: NoteView,
    path: PathView,
) -> Option<SpendFault>;

/// The bytes of a key, where there is one.
pub open spec fn key_view(ovk: Option<[u8; 32]>) -> Option<Seq<u8>> {
    match ovk {
        Some(k) => Some(k@),
        None => None,
    }
}

/// Calls `orchard::builder::Builder::new` for a transactional bundle of the
/// Orchard pool, after reading the flags with `Flags::from_byte` and the
/// anchor with `Anchor::from_bytes`. Trusted: a builder comes back if and
/// only if the byte has no bit set but the lowest two and the anchor is the
/// encoding of an element of the base field; the lowest bit enables spends,
/// the next one outputs; and the builder is empty.
#[verifier::external_body]
fn new_orchard_builder(flag_byte: u8, anchor: &[u8; 32], required: bool, minimum: Option<u8>) -> (r:
    Option<OrchardBuilder>)
    ensures
        r is Some == (flag_byte < 4 && anchor_decodes(anchor@)),
        r matches Some(builder) ==> {
            &&& builder_setup(builder) == (Setup {
                anchor: Some(anchor@),
                spends_enabled: flag_byte % 2 == 1,
                outputs_enabled: flag_byte / 2 == 1,
                cross_address_enabled: true,
                required,
                minimum,
            })
            &&& builder_spends(builder) == Seq::<HeldSpend>::empty()
            &&& builder_outputs(builder) == Seq::<HeldOutput>::empty()
        },
{
    let version = orchard::bundle::BundleVersion::orchard_v2();
    let flags = orchard::bundle::Flags::from_byte(flag_byte, version)?;
    let anchor = orchard::Anchor::from_bytes(*anchor).into_option()?;
    let kind = orchard::builder::BundleType::Transactional {
        bundle_required: required,
        pad_to_minimum: minimum,
    };
    OrchardBuilder::new(kind, version, flags, anchor).ok()
}

/// Calls `orchard::builder::Builder::add_spend`. Trusted: the builder keeps
/// what it was made with and its outputs; a refusal leaves it as it is, and
/// a spend that is taken stands behind the spends held before; and where the
/// builder has an anchor and takes spends, the answer depends on the anchor,
/// the key, the note and the path alone.
#[verifier::external_body]
fn orchard_add_spend(
    builder: &mut OrchardBuilder,
    fvk: &FullViewingKey,
    note: &Note,
    path: &MerklePath,
) -> (r: Result<(), SpendFault>)
    ensures
        builder_setup(*final(builder)) == builder_setup(*old(builder)),
        r is Err ==> *final(builder) == *old(builder),
        r is Ok ==> {
            &&& builder_spends(*final(builder)) == builder_spends(*old(builder)).push(
                HeldSpend { fvk: fvk@, note: note@, path: path@ },
            )
            &&& builder_outputs(*final(builder)) == builder_outputs(*old(builder))
        },
        builder_setup(*old(builder)).spends_enabled ==> (builder_setup(
            *old(builder),
        ).anchor matches Some(anchor) ==> r == match spend_fault(anchor, fvk@, note@, path@) {
            Some(fault) => Err::<(), SpendFault>(fault),
            None => Ok::<(), SpendFault>(()),
        }),
{
    builder.add_spend(fvk.inner.clone(), note.inner, path.inner.clone()).map_err(
        |e| match e {
            orchard::builder::SpendError::SpendsDisabled => SpendFault::Disabled,
            orchard::builder::SpendError::AnchorMismatch => SpendFault::AnchorMismatch,
            orchard::builder::SpendError::FvkMismatch => SpendFault::KeyMismatch,
            _ => SpendFault::Unwitnessed,
        },
    )
}

/// Calls `orchard::builder::Builder::add_output`. Trusted: the builder keeps
/// what it was made with and its spends; a refusal leaves it as it is, and
/// an output that is taken stands, with the four values handed in, behind
/// the outputs held before; and the output is taken if and only if the
/// builder takes outputs and lets an action pay to another address.
#[verifier::external_body]
fn orchard_add_output(
    builder: &mut OrchardBuilder,
    ovk: Option<[u8; 32]>,
    recipient: &Address,
    value: u64,
    memo: [u8; 512],
) -> (taken: bool)
    ensures
        builder_setup(*final(builder)) == builder_setup(*old(builder)),
        !taken ==> *final(builder) == *old(builder),
        taken ==> {
            &&& builder_outputs(*final(builder)) == builder_outputs(*old(builder)).push(
                HeldOutput { ovk: key_view(ovk), recipient: recipient@, value, memo: memo@ },
            )
            &&& builder_spends(*final(builder)) == builder_spends(*old(builder))
        },
        taken == (builder_setup(*old(builder)).outputs_enabled && builder_setup(
            *old(builder),
        ).cross_address_enabled),
{
    let ovk = ovk.map(orchard::keys::OutgoingViewingKey::from);
    let value = orchard::value::NoteValue::from_raw(value);
    builder.add_output(ovk, recipient.inner, value, memo).is_ok()
}

/// Calls `orchard::builder::Builder::build_for_pczt`. Trusted: the call
/// first refuses what the builder alone decides, for the flags, the anchor,
/// the version of the notes or the kind of the bundle. It then shuffles the
/// requests and adds up their values in that order, and refuses for the
/// balance where a sum on the way leaves the range of a note value with
/// either sign; none does where neither all spends nor all outputs together
/// exceed a note value. In the bundle that
/// comes back every spend has its randomizer, none has a signature, and the
/// proof is missing; and for a builder that always yields a bundle, fills
/// up to two actions and lets an action pay to another address, the bundle
/// has one action for each spend or output, whichever are more, and two at
/// least, of which as many spend a note that is no dummy as the builder held
/// spends. With the bundle come the places that
/// `BundleMetadata::output_action_index` gives for the first `outputs`
/// outputs: where those are all outputs of the builder, each stands with its
/// recipient and value at the action of its place, no two at one action, and
/// every other action pays the value zero.
#[verifier::external_body]
fn orchard_build(builder: OrchardBuilder, rng: &mut ChaCha12Rng, outputs: usize) -> (r: Result<
    (PcztBundle, Vec<usize>),
    BuildFault,
>)
    ensures
        match r {
            Ok((bundle, places)) => {
                &&& builder_fault(builder) is None
                &&& !pczt_proven(bundle)
                &&& forall|i: int|
                    0 <= i < pczt_slots(bundle).len() ==> {
                        &&& !(#[trigger] pczt_slots(bundle)[i]).signed()
                        &&& pczt_slots(bundle)[i].randomizer is Some
                    }
                &&& builder_setup(builder).cross_address_enabled && builder_setup(
                    builder,
                ).required && builder_setup(builder).minimum is None ==> {
                    &&& pczt_slots(bundle).len() == action_count(
                        builder_spends(builder).len(),
                        builder_outputs(builder).len(),
                    )
                    &&& real_spends(pczt_slots(bundle)) == builder_spends(builder).len()
                    &&& outputs == builder_outputs(builder).len() ==> pays(
                        pczt_payments(bundle),
                        asked(builder_outputs(builder)),
                        places_of(places@),
                    )
                }
            },
            Err(fault) => {
                &&& fault == BuildFault::Balance || builder_fault(builder) == Some(fault)
                &&& builder_fault(builder) matches Some(first) ==> fault == first
                &&& held_spent(builder_spends(builder)) <= u64::MAX && held_created(
                    builder_outputs(builder),
                ) <= u64::MAX ==> fault != BuildFault::Balance
            },
        },
{
    let built = builder.build_for_pczt(rng).map_err(
        |e| match e {
            orchard::builder::BuildError::ValueSum(_) => BuildFault::Balance,
            orchard::builder::BuildError::AnchorMismatch => BuildFault::Anchor,
            _ => BuildFault::Refused,
        },
    );
    built.map(
        |(bundle, at)| (bundle, (0..outputs).filter_map(|n| at.output_action_index(n)).collect()),
    )
}

/// What a spend holds.
pub struct SpendView {
    /// The encoding of the full viewing key.
    pub fvk: Seq<u8>,
    /// The note to spend.
    pub note: NoteView,
    /// The Merkle path of the note, where the spend brings one.
    pub path: Option<PathView>,
}

/// The wish to spend one note.
pub struct Spend {
    fvk: FullViewingKey,
    note: Note,
    path: Option<MerklePath>,
}

impl View for Spend {
    type V = SpendView;

    closed spec fn view(&self) -> SpendView {
        SpendView {
            fvk: self.fvk@,
            note: self.note@,
            path: match self.path {
                Some(p) => Some(p@),
                None => None,
            },
        }
    }
}

impl Spend {
    /// A spend without a Merkle path. The builder gives it the path of
    /// [`MerklePath::dummy`], which suits a test and nothing else.
    pub fn new(fvk: FullViewingKey, note: Note) -> (s: Spend)
        ensures
            s@ == (SpendView { fvk: fvk@, note: note@, path: None }),
    {
        Spend { fvk, note, path: None }
    }

    /// A spend of a note with the path that proves the note to be in the tree.
    pub fn with_path(fvk: FullViewingKey, note: Note, path: MerklePath) -> (s: Spend)
        ensures
            s@ == (SpendView { fvk: fvk@, note: note@, path: Some(path@) }),
    {
        Spend { fvk, note, path: Some(path) }
    }
}

/// What an output holds.
pub struct OutputView {
    /// The outgoing viewing key, where the sender keeps one.
    pub ovk: Option<Seq<u8>>,
    /// The raw address of the recipient.
    pub recipient: Seq<u8>,
    /// The value to pay.
    pub value: u64,
    /// The memo, where the output carries one.
    pub memo: Option<Seq<u8>>,
}

/// The wish to create one note.
pub struct Output {
    ovk: Option<[u8; 32]>,
    recipient: Address,
    value: u64,
    memo: Option<[u8; 512]>,
}

impl View for Output {
    type V = OutputView;

    closed spec fn view(&self) -> OutputView {
        OutputView {
            ovk: match self.ovk {
                Some(k) => Some(k@),
                None => None,
            },
            recipient: self.recipient@,
            value: self.value,
            memo: match self.memo {
                Some(m) => Some(m@),
                None => None,
            },
        }
    }
}

/// The value of [`Output::default`].
pub const DEFAULT_VALUE: u64 = 100_000_000;

/// The memo of an output that carries none: the byte `0xf6`, then zeros.
pub open spec fn empty_memo() -> Seq<u8> {
    Seq::new(512, |i: int| if i == 0 { 0xf6u8 } else { 0u8 })
}

/// The memo that goes into the note: the given one, or the empty memo.
pub fn memo_or_empty(memo: &Option<[u8; 512]>) -> (m: [u8; 512])
    ensures
        m@ == match *memo {
            Some(given) => given@,
            None => empty_memo(),
        },
{
    match memo {
        Some(given) => *given,
        None => {
            let mut m = [0u8; 512];
            m[0] = 0xf6;
            assert(m@ =~= empty_memo());
            m
        },
    }
}

impl Output {
    /// An output of `value` to `recipient`.
    pub fn new(
        ovk: Option<[u8; 32]>,
        recipient: Address,
        value: u64,
        memo: Option<[u8; 512]>,
    ) -> (o: Output)
        ensures
            o@ == (OutputView {
                ovk: match ovk {
                    Some(k) => Some(k@),
                    None => None,
                },
                recipient: recipient@,
                value,
                memo: match memo {
                    Some(m) => Some(m@),
                    None => None,
                },
            }),
    {
        Output { ovk, recipient, value, memo }
    }

    /// The output of the examples: 100000000 units to [`Address::default`],
    /// without a key and without a memo.
    pub fn default() -> (r: Result<Output, Error>)
        ensures
            match r {
                Ok(o) => Address::decode(Address::default_bytes()) is Some && o@ == (OutputView {
                    ovk: None,
                    recipient: Address::default_bytes(),
                    value: DEFAULT_VALUE,
                    memo: None,
                }),
                Err(e) => e == Error::Decode && Address::decode(Address::default_bytes()) is None,
            },
    {
        match Address::default() {
            Ok(recipient) => Ok(Output { ovk: None, recipient, value: DEFAULT_VALUE, memo: None }),
            Err(e) => Err(e),
        }
    }

    /// The value to pay.
    pub fn value(&self) -> (v: u64)
        ensures
            v == self@.value,
    {
        self.value
    }
}

/// What a builder holds.
pub struct BuilderView {
    /// Whether the builder has yielded its bundle.
    pub exhausted: bool,
    /// The anchor that every spend must lead to.
    pub anchor: Seq<u8>,
    /// Whether spends may be added.
    pub spends_enabled: bool,
    /// Whether outputs may be added.
    pub outputs_enabled: bool,
    /// The spends, in the order in which they were added.
    pub spends: Seq<SpendView>,
    /// The outputs, in the order in which they were added.
    pub outputs: Seq<OutputView>,
}

impl BuilderView {
    /// The sum of the values of the notes to spend.
    pub open spec fn spent(self) -> int {
        sum_spent(self.spends)
    }

    /// The sum of the values to pay.
    pub open spec fn created(self) -> int {
        sum_created(self.outputs)
    }

    /// What the bundle takes out of the shielded pool: spent less created.
    pub open spec fn balance(self) -> int {
        self.spent() - self.created()
    }

    /// Whether the balance is a value that the protocol can express, with
    /// either sign.
    pub open spec fn balance_in_range(self) -> bool {
        -(MAX_VALUE as int) <= self.balance() <= MAX_VALUE as int
    }

    /// Whether neither all spends nor all outputs together exceed the
    /// greatest value of a note.
    pub open spec fn sums_in_range(self) -> bool {
        self.spent() <= u64::MAX && self.created() <= u64::MAX
    }

    /// The builder after it has yielded its bundle: it holds no request.
    pub open spec fn spent_up(self) -> BuilderView {
        BuilderView { exhausted: true, spends: Seq::empty(), outputs: Seq::empty(), ..self }
    }
}

/// The sum of the values of the notes of these spends.
pub open spec fn sum_spent(spends: Seq<SpendView>) -> int
    decreases spends.len(),
{
    if spends.len() == 0 {
        0
    } else {
        sum_spent(spends.drop_last()) + spends.last().note.value
    }
}

/// The sum of the values of these outputs.
pub open spec fn sum_created(outputs: Seq<OutputView>) -> int
    decreases outputs.len(),
{
    if outputs.len() == 0 {
        0
    } else {
        sum_created(outputs.drop_last()) + outputs.last().value
    }
}

/// The path that a spend is added with: its own, or the dummy path.
pub open spec fn path_of(spend: SpendView) -> PathView {
    match spend.path {
        Some(path) => path,
        None => PathView { position: 0, siblings: MerklePath::dummy_siblings() },
    }
}

/// The spend as an orchard builder holds it.
pub open spec fn held_spend(spend: SpendView) -> HeldSpend {
    HeldSpend { fvk: spend.fvk, note: spend.note, path: path_of(spend) }
}

/// The output as an orchard builder holds it: without a memo of its own it
/// has the empty memo.
pub open spec fn held_output(output: OutputView) -> HeldOutput {
    HeldOutput {
        ovk: output.ovk,
        recipient: output.recipient,
        value: output.value,
        memo: match output.memo {
            Some(memo) => memo,
            None => empty_memo(),
        },
    }
}

/// The spends as an orchard builder holds them.
pub open spec fn held_spends(spends: Seq<SpendView>) -> Seq<HeldSpend> {
    Seq::new(spends.len(), |i: int| held_spend(spends[i]))
}

/// The outputs as an orchard builder holds them.
pub open spec fn held_outputs(outputs: Seq<OutputView>) -> Seq<HeldOutput> {
    Seq::new(outputs.len(), |i: int| held_output(outputs[i]))
}

/// The error of this crate for a spend that orchard did not take.
pub open spec fn spend_error(fault: SpendFault) -> Error {
    match fault {
        SpendFault::Disabled => Error::CapabilityViolation,
        SpendFault::AnchorMismatch => Error::InvalidAnchor,
        SpendFault::KeyMismatch => Error::KeyMismatch,
        SpendFault::Unwitnessed => Error::MissingMembershipProof,
    }
}

/// The error of this crate for a bundle that orchard did not build.
pub open spec fn build_error(fault: BuildFault) -> Error {
    match fault {
        BuildFault::Balance => Error::ValueBalance,
        BuildFault::Anchor => Error::InvalidAnchor,
        BuildFault::Refused => Error::CapabilityViolation,
    }
}

/// Gives a name of this crate to the reason why orchard did not take a spend.
pub fn explain_spend_fault(fault: SpendFault) -> (e: Error)
    ensures
        e == spend_error(fault),
{
    match fault {
        SpendFault::Disabled => Error::CapabilityViolation,
        SpendFault::AnchorMismatch => Error::InvalidAnchor,
        SpendFault::KeyMismatch => Error::KeyMismatch,
        SpendFault::Unwitnessed => Error::MissingMembershipProof,
    }
}

/// Gives a name of this crate to the reason why orchard did not build a
/// bundle.
pub fn explain_build_fault(fault: BuildFault) -> (e: Error)
    ensures
        e == build_error(fault),
{
    match fault {
        BuildFault::Balance => Error::ValueBalance,
        BuildFault::Anchor => Error::InvalidAnchor,
        BuildFault::Refused => Error::CapabilityViolation,
    }
}

/// Why orchard refuses a spend for the given anchor; `None` where it takes
/// it.
pub open spec fn offer_refusal(anchor: Seq<u8>, spend: SpendView) -> Option<Error> {
    match spend_fault(anchor, spend.fvk, spend.note, path_of(spend)) {
        Some(fault) => Some(spend_error(fault)),
        None => None,
    }
}

/// Why a builder refuses a spend; `None` where it takes it.
pub open spec fn spend_refusal(builder: BuilderView, spend: SpendView) -> Option<Error> {
    if builder.exhausted {
        Some(Error::BuilderExhausted)
    } else if !builder.spends_enabled {
        Some(Error::CapabilityViolation)
    } else {
        offer_refusal(builder.anchor, spend)
    }
}

/// Why a builder refuses an output; `None` where it takes it.
pub open spec fn output_refusal(builder: BuilderView, output: OutputView) -> Option<Error> {
    if builder.exhausted {
        Some(Error::BuilderExhausted)
    } else if !builder.outputs_enabled {
        Some(Error::CapabilityViolation)
    } else {
        None
    }
}

/// Why a builder yields no bundle: it is exhausted, the sums or the balance
/// of its values are out of range, or orchard refuses for the reason given.
/// `None` where it yields its bundle.
pub open spec fn build_refusal(builder: BuilderView, fault: Option<BuildFault>) -> Option<Error> {
    if builder.exhausted {
        Some(Error::BuilderExhausted)
    } else if !builder.sums_in_range() || !builder.balance_in_range() {
        Some(Error::ValueBalance)
    } else {
        match fault {
            Some(fault) => Some(build_error(fault)),
            None => None,
        }
    }
}

/// How [`Builder::build`] leaves a builder, and what it returns, where
/// orchard's answer to the builder's requests is `fault`.
///
/// A builder that yields no bundle stays as it is. A builder that yields its
/// bundle is exhausted.
pub open spec fn builds(
    before: BuilderView,
    after: BuilderView,
    fault: Option<BuildFault>,
    r: Result<Bundle, Error>,
) -> bool {
    match build_refusal(before, fault) {
        Some(e) => r == Err::<Bundle, Error>(e) && after == before,
        None => {
            &&& after == before.spent_up()
            &&& r matches Ok(bundle) && {
                &&& bundle.is_live()
                &&& bundle.phase() == State::UnprovenAndUnauthorized
                &&& bundle.sighash() is None
                &&& !bundle.proven()
                &&& bundle.slots().len() == action_count(
                    before.spends.len(),
                    before.outputs.len(),
                )
                &&& real_spends(bundle.slots()) == before.spends.len()
                &&& bundle.spec_payments().len() == bundle.slots().len()
                &&& exists|places: Seq<int>|
                    pays(bundle.spec_payments(), asked(held_outputs(before.outputs)), places)
                &&& forall|i: int|
                    0 <= i < bundle.slots().len() ==> {
                        &&& !(#[trigger] bundle.slots()[i]).signed()
                        &&& bundle.slots()[i].randomizer is Some
                    }
            }
        },
    }
}

/// Gathers the spends and outputs of one bundle. It yields one bundle and is
/// exhausted then.
pub struct Builder {
    inner: Option<OrchardBuilder>,
    anchor: [u8; 32],
    spends_enabled: bool,
    outputs_enabled: bool,
    spends: Vec<Spend>,
    outputs: Vec<Output>,
}

impl View for Builder {
    type V = BuilderView;

    closed spec fn view(&self) -> BuilderView {
        BuilderView {
            exhausted: self.inner is None,
            anchor: self.anchor@,
            spends_enabled: self.spends_enabled,
            outputs_enabled: self.outputs_enabled,
            spends: Seq::new(self.spends@.len(), |i: int| self.spends@[i]@),
            outputs: Seq::new(self.outputs@.len(), |i: int| self.outputs@[i]@),
        }
    }
}

impl Builder {
    /// What holds of the requests that a builder keeps: orchard reads the
    /// anchor, the flags allow each request, and orchard takes each spend
    /// for the anchor.
    pub closed spec fn requests_fit(&self) -> bool {
        &&& anchor_decodes(self.anchor@)
        &&& self.spends@.len() > 0 ==> self.spends_enabled
        &&& self.outputs@.len() > 0 ==> self.outputs_enabled
        &&& forall|i: int|
            0 <= i < self.spends@.len() ==> offer_refusal(
                self.anchor@,
                (#[trigger] self.spends@[i])@,
            ) is None
    }

    /// Whether the builder is as this crate makes and leaves it: its
    /// requests fit, the orchard builder inside it holds the same requests
    /// under the same anchor and flags, and once it is exhausted it holds
    /// nothing.
    pub closed spec fn wf(&self) -> bool {
        &&& self.requests_fit()
        &&& match self.inner {
            Some(inner) => Self::mirrors(inner, self@),
            None => self.spends@.len() == 0 && self.outputs@.len() == 0,
        }
    }

    /// Whether an orchard builder holds what the view holds.
    pub open spec fn mirrors(inner: OrchardBuilder, view: BuilderView) -> bool {
        &&& builder_setup(inner) == (Setup {
            anchor: Some(view.anchor),
            spends_enabled: view.spends_enabled,
            outputs_enabled: view.outputs_enabled,
            cross_address_enabled: true,
            required: true,
            minimum: None,
        })
        &&& builder_spends(inner) == held_spends(view.spends)
        &&& builder_outputs(inner) == held_outputs(view.outputs)
    }

    /// Why orchard refuses what the builder holds before it looks at the
    /// values; `None` where it goes on to the values, and for an exhausted
    /// builder.
    pub closed spec fn orchard_fault(&self) -> Option<BuildFault> {
        match self.inner {
            Some(inner) => builder_fault(inner),
            None => None,
        }
    }

    /// The byte that stands for the two flags.
    fn flag_byte(spends_enabled: bool, outputs_enabled: bool) -> (byte: u8)
        ensures
            byte < 4,
            (byte % 2 == 1) == spends_enabled,
            (byte / 2 == 1) == outputs_enabled,
    {
        let low: u8 = if spends_enabled {
            1
        } else {
            0
        };
        let high: u8 = if outputs_enabled {
            2
        } else {
            0
        };
        low + high
    }

    /// An empty builder for the given anchor. The flags say whether the
    /// bundle may spend notes and whether it may create them.
    pub fn new(anchor: [u8; 32], spends_enabled: bool, outputs_enabled: bool) -> (r: Result<
        Builder,
        Error,
    >)
        ensures
            match r {
                Ok(b) => {
                    &&& anchor_decodes(anchor@)
                    &&& b.wf()
                    &&& b@ == (BuilderView {
                        exhausted: false,
                        anchor: anchor@,
                        spends_enabled,
                        outputs_enabled,
                        spends: Seq::empty(),
                        outputs: Seq::empty(),
                    })
                },
                Err(e) => e == Error::InvalidAnchor && !anchor_decodes(anchor@),
            },
    {
        let byte = Self::flag_byte(spends_enabled, outputs_enabled);
        match new_orchard_builder(byte, &anchor, true, None) {
            Some(inner) => {
                let b = Builder {
                    inner: Some(inner),
                    anchor,
                    spends_enabled,
                    outputs_enabled,
                    spends: Vec::new(),
                    outputs: Vec::new(),
                };
                assert(b@.spends =~= Seq::empty());
                assert(b@.outputs =~= Seq::empty());
                assert(held_spends(b@.spends) =~= Seq::empty());
                assert(held_outputs(b@.outputs) =~= Seq::empty());
                Ok(b)
            },
            None => Err(Error::InvalidAnchor),
        }
    }

    /// The builder of the examples: both flags set, every byte of the anchor 1.
    pub fn default() -> (b: Builder)
        ensures
            b.wf(),
            b@ == (BuilderView {
                exhausted: false,
                anchor: Self::default_anchor(),
                spends_enabled: true,
                outputs_enabled: true,
                spends: Seq::empty(),
                outputs: Seq::empty(),
            }),
    {
        let anchor = [1u8; 32];
        proof {
            assert(anchor@ =~= Self::default_anchor());
            lemma_top_byte_decides(anchor@);
        }
        match Builder::new(anchor, true, true) {
            Ok(b) => b,
            Err(_) => unreached(),
        }
    }

    /// The anchor of [`Builder::default`]: 32 bytes, each of them 1.
    pub open spec fn default_anchor() -> Seq<u8> {
        Seq::new(32, |i: int| 1u8)
    }

    /// Whether the builder can still take requests and yield its bundle.
    pub fn is_some(&self) -> (r: bool)
        ensures
            r == !self@.exhausted,
    {
        self.inner.is_some()
    }

    /// The number of spends added so far.
    pub fn spend_count(&self) -> (n: usize)
        ensures
            n == self@.spends.len(),
    {
        self.spends.len()
    }

    /// The number of outputs added so far.
    pub fn output_count(&self) -> (n: usize)
        ensures
            n == self@.outputs.len(),
    {
        self.outputs.len()
    }

    /// Adds a spend behind those added before.
    ///
    /// The key must own the note, and the path must lead from the note to
    /// the builder's anchor. A refused spend leaves the builder as it was.
    pub fn add_spend(&mut self, spend: Spend) -> (r: Result<(), Error>)
        requires
            old(self).wf(),
        ensures
            final(self).wf(),
            match spend_refusal(old(self)@, spend@) {
                Some(e) => r == Err::<(), Error>(e) && *final(self) == *old(self),
                None => r is Ok && final(self)@ == (BuilderView {
                    spends: old(self)@.spends.push(spend@),
                    ..old(self)@
                }),
            },
    {
        if self.inner.is_none() {
            return Err(Error::BuilderExhausted);
        }
        if !self.spends_enabled {
            return Err(Error::CapabilityViolation);
        }
        let taken = Self::offer(&mut self.inner, &spend, Ghost(self.anchor@));
        match taken {
            Ok(()) => {
                self.spends.push(spend);
                assert(self@.spends =~= old(self)@.spends.push(spend@));
                assert(self@.outputs =~= old(self)@.outputs);
                assert(held_spends(self@.spends) =~= held_spends(old(self)@.spends).push(
                    held_spend(spend@),
                ));
                assert forall|i: int| 0 <= i < self.spends@.len() implies offer_refusal(
                    self.anchor@,
                    (#[trigger] self.spends@[i])@,
                ) is None by {
                    if i < old(self).spends@.len() {
                        assert(self.spends@[i] == old(self).spends@[i]);
                    }
                }
                Ok(())
            },
            Err(e) => Err(e),
        }
    }

    /// Offers a spend to the orchard builder, with the dummy path where the
    /// spend brings none.
    fn offer(held: &mut Option<OrchardBuilder>, spend: &Spend, Ghost(anchor): Ghost<Seq<u8>>) -> (r:
        Result<(), Error>)
        requires
            *old(held) matches Some(inner) && builder_setup(inner).spends_enabled && builder_setup(
                inner,
            ).anchor == Some(anchor),
        ensures
            *final(held) is Some,
            builder_setup((*final(held))->0) == builder_setup((*old(held))->0),
            r == match offer_refusal(anchor, spend@) {
                Some(e) => Err::<(), Error>(e),
                None => Ok::<(), Error>(()),
            },
            r is Err ==> *final(held) == *old(held),
            r is Ok ==> {
                &&& builder_spends((*final(held))->0) == builder_spends((*old(held))->0).push(
                    held_spend(spend@),
                )
                &&& builder_outputs((*final(held))->0) == builder_outputs((*old(held))->0)
            },
    {
        let answer = match held {
            None => {
                return Err(Error::BuilderExhausted);
            },
            Some(inner) => match &spend.path {
                Some(path) => orchard_add_spend(inner, &spend.fvk, &spend.note, path),
                None => {
                    let path = MerklePath::dummy();
                    orchard_add_spend(inner, &spend.fvk, &spend.note, &path)
                },
            },
        };
        match answer {
            Ok(()) => Ok(()),
            Err(fault) => Err(explain_spend_fault(fault)),
        }
    }

    /// Adds an output behind those added before.
    ///
    /// An output of any value is taken: whether the values add up is seen
    /// when the bundle is built. A refused output leaves the builder as it
    /// was.
    pub fn add_output(&mut self, output: Output) -> (r: Result<(), Error>)
        requires
            old(self).wf(),
        ensures
            final(self).wf(),
            match output_refusal(old(self)@, output@) {
                Some(e) => r == Err::<(), Error>(e) && *final(self) == *old(self),
                None => r is Ok && final(self)@ == (BuilderView {
                    outputs: old(self)@.outputs.push(output@),
                    ..old(self)@
                }),
            },
    {
        if self.inner.is_none() {
            return Err(Error::BuilderExhausted);
        }
        if !self.outputs_enabled {
            return Err(Error::CapabilityViolation);
        }
        let taken = Self::offer_output(&mut self.inner, &output);
        if !taken {
            return Err(Error::CapabilityViolation);
        }
        self.outputs.push(output);
        assert(self@.outputs =~= old(self)@.outputs.push(output@));
        assert(self@.spends =~= old(self)@.spends);
        assert(held_outputs(self@.outputs) =~= held_outputs(old(self)@.outputs).push(
            held_output(output@),
        ));
        Ok(())
    }

    /// Offers an output to the orchard builder, with the empty memo where
    /// the output brings none.
    fn offer_output(held: &mut Option<OrchardBuilder>, output: &Output) -> (taken: bool)
        requires
            *old(held) is Some,
        ensures
            *final(held) is Some,
            builder_setup((*final(held))->0) == builder_setup((*old(held))->0),
            !taken ==> *final(held) == *old(held),
            taken ==> {
                &&& builder_outputs((*final(held))->0) == builder_outputs((*old(held))->0).push(
                    held_output(output@),
                )
                &&& builder_spends((*final(held))->0) == builder_spends((*old(held))->0)
            },
            taken == (builder_setup((*old(held))->0).outputs_enabled && builder_setup(
                (*old(held))->0,
            ).cross_address_enabled),
    {
        let memo = memo_or_empty(&output.memo);
        match held {
            None => false,
            Some(inner) => orchard_add_output(
                inner,
                output.ovk,
                &output.recipient,
                output.value,
                memo,
            ),
        }
    }

    /// The sum of the values of the notes to spend.
    fn total_spent(&self) -> (total: u128)
        ensures
            total == self@.spent(),
    {
        let n = self.spends.len();
        let mut total: u128 = 0;
        let mut i: usize = 0;
        assert(self@.spends.take(0) =~= Seq::empty());
        while i < n
            invariant
                i <= n,
                n == self.spends@.len(),
                n == self@.spends.len(),
                total == sum_spent(self@.spends.take(i as int)),
                total <= i * 0xffff_ffff_ffff_ffff,
            decreases n - i,
        {
            let value = self.spends[i].note.value();
            assert(self@.spends[i as int] == self.spends@[i as int]@);
            assert(self@.spends.take(i + 1).drop_last() =~= self@.spends.take(i as int));
            assert((i + 1) * 0xffff_ffff_ffff_ffff <= 0xffff_ffff_ffff_ffff
                * 0xffff_ffff_ffff_ffff) by (nonlinear_arith)
                requires
                    i + 1 <= 0xffff_ffff_ffff_ffff,
            ;
            assert((i + 1) * 0xffff_ffff_ffff_ffff == i * 0xffff_ffff_ffff_ffff
                + 0xffff_ffff_ffff_ffff) by (nonlinear_arith);
            total = total + value as u128;
            i += 1;
        }
        assert(self@.spends.take(n as int) =~= self@.spends);
        total
    }

    /// The sum of the values to pay.
    fn total_created(&self) -> (total: u128)
        ensures
            total == self@.created(),
    {
        let n = self.outputs.len();
        let mut total: u128 = 0;
        let mut i: usize = 0;
        assert(self@.outputs.take(0) =~= Seq::empty());
        while i < n
            invariant
                i <= n,
                n == self.outputs@.len(),
                n == self@.outputs.len(),
                total == sum_created(self@.outputs.take(i as int)),
                total <= i * 0xffff_ffff_ffff_ffff,
            decreases n - i,
        {
            let value = self.outputs[i].value();
            assert(self@.outputs[i as int] == self.outputs@[i as int]@);
            assert(self@.outputs.take(i + 1).drop_last() =~= self@.outputs.take(i as int));
            assert((i + 1) * 0xffff_ffff_ffff_ffff <= 0xffff_ffff_ffff_ffff
                * 0xffff_ffff_ffff_ffff) by (nonlinear_arith)
                requires
                    i + 1 <= 0xffff_ffff_ffff_ffff,
            ;
            assert((i + 1) * 0xffff_ffff_ffff_ffff == i * 0xffff_ffff_ffff_ffff
                + 0xffff_ffff_ffff_ffff) by (nonlinear_arith);
            total = total + value as u128;
            i += 1;
        }
        assert(self@.outputs.take(n as int) =~= self@.outputs);
        total
    }

    /// Whether neither all spends nor all outputs together exceed the
    /// greatest value of a note.
    pub fn sums_in_range(&self) -> (r: bool)
        ensures
            r == self@.sums_in_range(),
    {
        self.total_spent() <= u64::MAX as u128 && self.total_created() <= u64::MAX as u128
    }

    /// The sums that the orchard builder adds up are those of the view.
    proof fn lemma_held_sums(spends: Seq<SpendView>, outputs: Seq<OutputView>)
        ensures
            held_spent(held_spends(spends)) == sum_spent(spends),
            held_created(held_outputs(outputs)) == sum_created(outputs),
        decreases spends.len() + outputs.len(),
    {
        if spends.len() > 0 {
            assert(held_spends(spends).drop_last() =~= held_spends(spends.drop_last()));
            Self::lemma_held_sums(spends.drop_last(), outputs);
        } else if outputs.len() > 0 {
            assert(held_outputs(outputs).drop_last() =~= held_outputs(outputs.drop_last()));
            Self::lemma_held_sums(spends, outputs.drop_last());
        }
    }

    /// Whether the balance of the requests is a value that the protocol can
    /// express.
    pub fn balance_in_range(&self) -> (r: bool)
        ensures
            r == self@.balance_in_range(),
    {
        let spent = self.total_spent();
        let created = self.total_created();
        if spent >= created {
            spent - created <= MAX_VALUE as u128
        } else {
            created - spent <= MAX_VALUE as u128
        }
    }

    /// Makes the orchard builder anew from the requests that are kept.
    fn restore(&mut self)
        requires
            old(self).inner is None,
            old(self).requests_fit(),
        ensures
            final(self).wf(),
            final(self)@ == (BuilderView { exhausted: false, ..old(self)@ }),
    {
        let byte = Self::flag_byte(self.spends_enabled, self.outputs_enabled);
        let mut held = new_orchard_builder(byte, &self.anchor, true, None);
        let ghost view = self@;
        let ghost anchor = self.anchor@;
        let n = self.spends.len();
        let mut i: usize = 0;
        assert(held_spends(view.spends).take(0) =~= Seq::empty());
        while i < n
            invariant
                i <= n,
                n == self.spends@.len(),
                *self == *old(self),
                view == self@,
                anchor == self.anchor@,
                self.requests_fit(),
                held matches Some(inner) && {
                    &&& builder_setup(inner) == (Setup {
                        anchor: Some(anchor),
                        spends_enabled: view.spends_enabled,
                        outputs_enabled: view.outputs_enabled,
                        cross_address_enabled: true,
                        required: true,
                        minimum: None,
                    })
                    &&& builder_spends(inner) == held_spends(view.spends).take(i as int)
                    &&& builder_outputs(inner) == Seq::<HeldOutput>::empty()
                },
            decreases n - i,
        {
            assert(view.spends[i as int] == self.spends@[i as int]@);
            let _ = Self::offer(&mut held, &self.spends[i], Ghost(anchor));
            assert(held_spends(view.spends).take(i + 1) =~= held_spends(view.spends).take(
                i as int,
            ).push(held_spend(view.spends[i as int])));
            i += 1;
        }
        assert(held_spends(view.spends).take(n as int) =~= held_spends(view.spends));
        let m = self.outputs.len();
        let mut j: usize = 0;
        assert(held_outputs(view.outputs).take(0) =~= Seq::empty());
        while j < m
            invariant
                j <= m,
                m == self.outputs@.len(),
                *self == *old(self),
                view == self@,
                self.requests_fit(),
                held matches Some(inner) && {
                    &&& builder_setup(inner) == (Setup {
                        anchor: Some(view.anchor),
                        spends_enabled: view.spends_enabled,
                        outputs_enabled: view.outputs_enabled,
                        cross_address_enabled: true,
                        required: true,
                        minimum: None,
                    })
                    &&& builder_spends(inner) == held_spends(view.spends)
                    &&& builder_outputs(inner) == held_outputs(view.outputs).take(j as int)
                },
            decreases m - j,
        {
            assert(view.outputs[j as int] == self.outputs@[j as int]@);
            let _ = Self::offer_output(&mut held, &self.outputs[j]);
            assert(held_outputs(view.outputs).take(j + 1) =~= held_outputs(view.outputs).take(
                j as int,
            ).push(held_output(view.outputs[j as int])));
            j += 1;
        }
        assert(held_outputs(view.outputs).take(m as int) =~= held_outputs(view.outputs));
        self.inner = held;
        assert(self@.spends =~= view.spends);
        assert(self@.outputs =~= view.outputs);
    }

    /// Yields the bundle of the requests gathered, in its first phase.
    ///
    /// The builder yields one bundle. Asked again it answers
    /// `BuilderExhausted`, and so do `add_spend` and `add_output` from then
    /// on. Where no bundle is yielded the builder holds what it held, and
    /// can be asked again once its requests are mended.
    pub fn build(&mut self, rng: &mut Random) -> (r: Result<Bundle, Error>)
        requires
            old(self).wf(),
        ensures
            final(self).wf(),
            final(rng).seed() == old(rng).seed(),
            builds(old(self)@, final(self)@, old(self).orchard_fault(), r),
            old(self)@.exhausted || !old(self)@.sums_in_range() || !old(self)@.balance_in_range()
                ==> *final(self) == *old(self) && *final(rng) == *old(rng),
    {
        if self.inner.is_none() {
            return Err(Error::BuilderExhausted);
        }
        if !self.sums_in_range() || !self.balance_in_range() {
            return Err(Error::ValueBalance);
        }
        proof {
            Self::lemma_held_sums(self@.spends, self@.outputs);
        }
        let inner = match self.inner.take() {
            Some(inner) => inner,
            None => {
                return Err(Error::BuilderExhausted);
            },
        };
        assert(self@.spends =~= old(self)@.spends);
        assert(self@.outputs =~= old(self)@.outputs);
        let asked_for = self.outputs.len();
        match orchard_build(inner, rng.generator(), asked_for) {
            Ok((draft, places)) => {
                self.spends = Vec::new();
                self.outputs = Vec::new();
                assert(self@.spends =~= Seq::empty());
                assert(self@.outputs =~= Seq::empty());
                let bundle = Bundle::built(draft);
                assert(pays(
                    bundle.spec_payments(),
                    asked(held_outputs(old(self)@.outputs)),
                    places_of(places@),
                ));
                Ok(bundle)
            },
            Err(fault) => {
                self.restore();
                Err(explain_build_fault(fault))
            },
        }
    }

    /// A builder yields one bundle: once `build` has returned a bundle, the
    /// next `build` is refused as `BuilderExhausted` and changes nothing, and
    /// so is every request.
    pub proof fn lemma_build_is_single_use(
        first: BuilderView,
        second: BuilderView,
        third: BuilderView,
        fault1: Option<BuildFault>,
        fault2: Option<BuildFault>,
        r1: Result<Bundle, Error>,
        r2: Result<Bundle, Error>,
    )
        requires
            builds(first, second, fault1, r1),
            builds(second, third, fault2, r2),
            r1 is Ok,
        ensures
            r2 == Err::<Bundle, Error>(Error::BuilderExhausted),
            third == second,
            spend_refusal(second, arbitrary()) == Some(Error::BuilderExhausted),
            output_refusal(second, arbitrary()) == Some(Error::BuilderExhausted),
    {
    }

    /// A builder yields its bundle if and only if it is not exhausted, the
    /// sums and the balance of its values are in range, and orchard does not
    /// refuse its requests.
    pub proof fn lemma_build_succeeds(
        before: BuilderView,
        after: BuilderView,
        fault: Option<BuildFault>,
        r: Result<Bundle, Error>,
    )
        requires
            builds(before, after, fault, r),
        ensures
            r is Ok <==> !before.exhausted && before.sums_in_range() && before.balance_in_range()
                && fault is None,
            r is Err ==> after == before,
    {
    }
}

} // verus!

use orchard::keys::{FullViewingKey as OrchardFullViewingKey, Scope, SpendingKey};
use orchard::note::{ExtractedNoteCommitment, NoteVersion, RandomSeed, Rho};
use orchard::tree::{MerkleHashOrchard, MerklePath as OrchardMerklePath};
use orchard::value::NoteValue;
use pyorchard::{
    Address, Builder, Error, FullViewingKey, MerklePath, Note, Output, Random, Spend,
};

fn spending_key(tag: u8) -> SpendingKey {
    SpendingKey::from_bytes([tag; 32]).unwrap()
}

fn key_bytes(tag: u8) -> [u8; 96] {
    OrchardFullViewingKey::from(&spending_key(tag)).to_bytes()
}

/// A note that the key made of `tag` owns, as orchard holds it and in bytes.
fn note_of(tag: u8, value: u64, mark: u8) -> (orchard::Note, [u8; 115]) {
    let recipient =
        OrchardFullViewingKey::from(&spending_key(tag)).address_at(0u32, Scope::External);
    let mut rho_bytes = [0u8; 32];
    rho_bytes[0] = mark;
    let rho = Rho::from_bytes(&rho_bytes).unwrap();
    for seed in 0u8..=255 {
        let rseed_bytes = [seed; 32];
        let note = RandomSeed::from_bytes(rseed_bytes, &rho).into_option().and_then(|rseed| {
            orchard::Note::from_parts(
                recipient,
                NoteValue::from_raw(value),
                rho,
                rseed,
                NoteVersion::V2,
            )
            .into_option()
        });
        if let Some(note) = note {
            let mut out = [0u8; 115];
            out[..43].copy_from_slice(&recipient.to_raw_address_bytes());
            out[43..51].copy_from_slice(&value.to_le_bytes());
            out[51..83].copy_from_slice(&rho_bytes);
            out[83..].copy_from_slice(&rseed_bytes);
            return (note, out);
        }
    }
    panic!("no seed gives a note");
}

/// The root that the all-zero path at position 0 leads to from the note.
fn anchor_of(note: &orchard::Note) -> [u8; 32] {
    let zero = MerkleHashOrchard::from_bytes(&[0u8; 32]).unwrap();
    let path = OrchardMerklePath::from_parts(0, [zero; 32]);
    path.root(ExtractedNoteCommitment::from(note.commitment())).to_bytes()
}

fn spend(tag: u8, bytes: &[u8; 115]) -> Spend {
    let key = FullViewingKey::from_bytes(&key_bytes(tag)).unwrap();
    Spend::new(key, Note::from_bytes(bytes).unwrap())
}

fn output(value: u64) -> Output {
    Output::new(None, Address::default().unwrap(), value, None)
}

#[test]
fn new_builder_is_empty() {
    let builder = Builder::new([1u8; 32], true, false).unwrap();
    assert!(builder.is_some());
    assert_eq!(builder.spend_count(), 0);
    assert_eq!(builder.output_count(), 0);
    assert!(builder.balance_in_range());
}

#[test]
fn anchor_that_does_not_decode_is_refused() {
    assert_eq!(Builder::new([0xff; 32], true, true).err(), Some(Error::InvalidAnchor));
}

#[test]
fn every_pair_of_flags_makes_a_builder() {
    for spends in [false, true] {
        for outputs in [false, true] {
            let mut builder = Builder::new([1u8; 32], spends, outputs).unwrap();
            let (_, bytes) = note_of(3, 0, 1);
            let taken = builder.add_spend(spend(3, &bytes));
            assert_eq!(taken.is_ok(), spends);
            let taken = builder.add_output(output(5));
            assert_eq!(taken.is_ok(), outputs);
        }
    }
}

#[test]
fn output_is_refused_where_outputs_are_disabled() {
    let mut builder = Builder::new([1u8; 32], true, false).unwrap();
    assert_eq!(builder.add_output(output(1)), Err(Error::CapabilityViolation));
    assert_eq!(builder.output_count(), 0);
    assert!(builder.is_some());
}

#[test]
fn spend_is_refused_where_spends_are_disabled() {
    let mut builder = Builder::new([1u8; 32], false, true).unwrap();
    let (_, bytes) = note_of(3, 0, 1);
    assert_eq!(builder.add_spend(spend(3, &bytes)), Err(Error::CapabilityViolation));
    assert_eq!(builder.spend_count(), 0);
}

#[test]
fn output_of_any_value_is_taken() {
    let mut builder = Builder::default();
    for value in [0u64, 1, 2_100_000_000_000_000, 2_100_000_000_000_001, u64::MAX] {
        assert_eq!(builder.add_output(output(value)), Ok(()));
    }
    assert_eq!(builder.output_count(), 5);
}

#[test]
fn output_of_the_greatest_value_yields_no_bundle() {
    let mut builder = Builder::default();
    assert_eq!(builder.add_output(output(u64::MAX)), Ok(()));
    assert!(builder.sums_in_range());
    assert!(!builder.balance_in_range());
    let mut rng = Random::default();
    assert_eq!(builder.build(&mut rng).err(), Some(Error::ValueBalance));
    // The refusal leaves the builder as it was.
    assert!(builder.is_some());
    assert_eq!(builder.output_count(), 1);
}

#[test]
fn outputs_beyond_a_note_value_yield_no_bundle() {
    let mut builder = Builder::default();
    builder.add_output(output(u64::MAX)).unwrap();
    assert!(builder.sums_in_range());
    builder.add_output(output(1)).unwrap();
    assert!(!builder.sums_in_range());
    let mut rng = Random::default();
    assert_eq!(builder.build(&mut rng).err(), Some(Error::ValueBalance));
    assert_eq!(builder.output_count(), 2);
}

#[test]
fn requests_are_counted_in_order() {
    let mut builder = Builder::default();
    builder.add_output(output(1)).unwrap();
    builder.add_output(Output::default().unwrap()).unwrap();
    let (_, bytes) = note_of(3, 0, 1);
    builder.add_spend(spend(3, &bytes)).unwrap();
    assert_eq!(builder.output_count(), 2);
    assert_eq!(builder.spend_count(), 1);
}

#[test]
fn default_output_pays_one_hundred_million() {
    assert_eq!(Output::default().unwrap().value(), 100_000_000);
}

#[test]
fn spend_with_a_key_that_does_not_own_the_note_is_refused() {
    let mut builder = Builder::default();
    let (_, bytes) = note_of(3, 0, 1);
    assert_eq!(builder.add_spend(spend(4, &bytes)), Err(Error::KeyMismatch));
    assert_eq!(builder.spend_count(), 0);
    assert_eq!(builder.add_spend(spend(3, &bytes)), Ok(()));
}

#[test]
fn spend_that_does_not_lead_to_the_anchor_is_refused() {
    let (note, bytes) = note_of(3, 1000, 1);
    let mut builder = Builder::default();
    assert_eq!(builder.add_spend(spend(3, &bytes)), Err(Error::InvalidAnchor));
    assert_eq!(builder.spend_count(), 0);

    let mut builder = Builder::new(anchor_of(&note), true, true).unwrap();
    assert_eq!(builder.add_spend(spend(3, &bytes)), Ok(()));
    assert_eq!(builder.spend_count(), 1);
}

#[test]
fn spend_with_its_own_path_is_held_to_the_anchor() {
    let (note, bytes) = note_of(3, 1000, 1);
    let key = || FullViewingKey::from_bytes(&key_bytes(3)).unwrap();
    let mut builder = Builder::new(anchor_of(&note), true, true).unwrap();

    let mut siblings = [[0u8; 32]; 32];
    siblings[0][0] = 1;
    let other = MerklePath::from_parts(0, &siblings).unwrap();
    let refused = Spend::with_path(key(), Note::from_bytes(&bytes).unwrap(), other);
    assert_eq!(builder.add_spend(refused), Err(Error::InvalidAnchor));

    let path = MerklePath::from_parts(0, &[[0u8; 32]; 32]).unwrap();
    let taken = Spend::with_path(key(), Note::from_bytes(&bytes).unwrap(), path);
    assert_eq!(builder.add_spend(taken), Ok(()));
}

#[test]
fn builder_yields_one_bundle() {
    let mut builder = Builder::default();
    builder.add_output(Output::default().unwrap()).unwrap();
    let mut rng = Random::default();
    let bundle = builder.build(&mut rng).unwrap();
    assert_eq!(bundle.state(), "Unproven & Unauthorized");
    assert!(!builder.is_some());
    assert_eq!(builder.output_count(), 0);

    assert_eq!(builder.build(&mut rng).err(), Some(Error::BuilderExhausted));
    assert_eq!(builder.add_output(output(1)), Err(Error::BuilderExhausted));
    let (_, bytes) = note_of(3, 0, 1);
    assert_eq!(builder.add_spend(spend(3, &bytes)), Err(Error::BuilderExhausted));
    assert_eq!(builder.build(&mut rng).err(), Some(Error::BuilderExhausted));

    // The bundle that was yielded is its own.
    assert_eq!(bundle.state(), "Unproven & Unauthorized");
    assert!(bundle.is_some());
}

#[test]
fn exhausted_builder_answers_before_it_looks_at_the_flags() {
    let mut builder = Builder::new([1u8; 32], false, false).unwrap();
    let mut rng = Random::default();
    builder.build(&mut rng).unwrap();
    assert_eq!(builder.add_output(output(1)), Err(Error::BuilderExhausted));
    let (_, bytes) = note_of(3, 0, 1);
    assert_eq!(builder.add_spend(spend(3, &bytes)), Err(Error::BuilderExhausted));
}

#[test]
fn empty_builder_yields_a_padded_bundle() {
    let mut builder = Builder::default();
    let mut rng = Random::default();
    let bundle = builder.build(&mut rng).unwrap();
    assert_eq!(bundle.action_count(), 2);
    assert!(bundle.pending_randomizers().is_empty());
}

#[test]
fn balance_beyond_the_supply_yields_no_bundle() {
    let (note, bytes) = note_of(3, u64::MAX, 1);
    let mut builder = Builder::new(anchor_of(&note), true, true).unwrap();
    builder.add_spend(spend(3, &bytes)).unwrap();
    assert!(!builder.balance_in_range());
    let mut rng = Random::default();
    assert_eq!(builder.build(&mut rng).err(), Some(Error::ValueBalance));
    // The refusal leaves the builder as it was.
    assert!(builder.is_some());
    assert_eq!(builder.spend_count(), 1);
}

#[test]
fn balance_is_spent_less_created() {
    let (note, bytes) = note_of(3, 2_100_000_000_000_000 + 7, 1);
    let mut builder = Builder::new(anchor_of(&note), true, true).unwrap();
    builder.add_spend(spend(3, &bytes)).unwrap();
    assert!(!builder.balance_in_range());
    builder.add_output(output(6)).unwrap();
    assert!(!builder.balance_in_range());
    builder.add_output(output(1)).unwrap();
    assert!(builder.balance_in_range());

    let mut builder = Builder::default();
    builder.add_output(output(2_100_000_000_000_000)).unwrap();
    assert!(builder.balance_in_range());
    builder.add_output(output(1)).unwrap();
    assert!(!builder.balance_in_range());
    let mut rng = Random::default();
    assert_eq!(builder.build(&mut rng).err(), Some(Error::ValueBalance));
}

/// The modulus of the base field, least significant byte first.
const MODULUS: [u8; 32] = [
    0x01, 0x00, 0x00, 0x00, 0xed, 0x30, 0x2d, 0x99, 0x1b, 0xf9, 0x4c, 0x09, 0xfc, 0x98, 0x46, 0x22,
    0x00, 0x00, 0x00, 0x00, 0x00, 0x00, 0x00, 0x00, 0x00, 0x00, 0x00, 0x00, 0x00, 0x00, 0x00, 0x40,
];

#[test]
fn anchor_is_a_number_below_the_modulus() {
    assert_eq!(Builder::new(MODULUS, true, true).err(), Some(Error::InvalidAnchor));
    let mut below = MODULUS;
    below[0] = 0x00;
    assert!(Builder::new(below, true, true).is_ok());
    let mut above = MODULUS;
    above[0] = 0x02;
    assert_eq!(Builder::new(above, true, true).err(), Some(Error::InvalidAnchor));
    // A lower byte decides where the higher ones are those of the modulus.
    let mut lower = MODULUS;
    lower[15] = 0x21;
    lower[0] = 0xff;
    assert!(Builder::new(lower, true, true).is_ok());
    let mut higher = MODULUS;
    higher[16] = 0x01;
    higher[0] = 0x00;
    assert_eq!(Builder::new(higher, true, true).err(), Some(Error::InvalidAnchor));
    assert!(Builder::new([0u8; 32], true, true).is_ok());
}

#[test]
fn sibling_is_a_number_below_the_modulus() {
    let mut siblings = [[0u8; 32]; 32];
    siblings[7] = MODULUS;
    assert_eq!(MerklePath::from_parts(0, &siblings).err(), Some(Error::Decode));
    siblings[7][0] = 0x00;
    assert!(MerklePath::from_parts(0, &siblings).is_ok());
}

#[test]
fn bundle_pays_what_was_asked_and_nothing_else() {
    let mut builder = Builder::default();
    builder.add_output(output(5)).unwrap();
    builder.add_output(output(7)).unwrap();
    for mark in 1..=3 {
        let (_, bytes) = note_of(3, 0, mark);
        builder.add_spend(spend(3, &bytes)).unwrap();
    }
    let mut rng = Random::default();
    let mut bundle = builder.build(&mut rng).unwrap();
    let payments = bundle.payments();
    assert_eq!(payments.len(), 3);
    let mut values: Vec<u64> = payments.iter().map(|p| p.value.unwrap()).collect();
    values.sort();
    assert_eq!(values, vec![0, 5, 7]);
    let to = Address::default().unwrap().to_bytes();
    for payment in payments.iter().filter(|p| p.value != Some(0)) {
        assert_eq!(payment.recipient, Some(to));
    }
    // Preparing the bundle leaves what it pays.
    bundle.prepare(&mut rng, [4u8; 32]).unwrap();
    assert_eq!(bundle.payments(), payments);
}

#[test]
fn padded_bundle_pays_nothing() {
    let mut builder = Builder::default();
    let mut rng = Random::default();
    let bundle = builder.build(&mut rng).unwrap();
    let payments = bundle.payments();
    assert_eq!(payments.len(), 2);
    assert!(payments.iter().all(|p| p.value == Some(0)));
}

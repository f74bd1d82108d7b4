use orchard::keys::{
    FullViewingKey as OrchardFullViewingKey, Scope, SpendAuthorizingKey, SpendingKey,
};
use orchard::note::{NoteVersion, RandomSeed, Rho};
use orchard::value::NoteValue;
use pasta_curves::group::ff::PrimeField;
use pasta_curves::pallas;
use pyorchard::{
    Address, Builder, Bundle, Error, FullViewingKey, Note, Output, Random, Spend, State,
};
use rand_chacha::ChaCha12Rng;
use rand_core::SeedableRng;

const SIGHASH: [u8; 32] = [9u8; 32];

fn spending_key(tag: u8) -> SpendingKey {
    SpendingKey::from_bytes([tag; 32]).unwrap()
}

/// A spend of a note of value zero that the key made of `tag` owns.
fn zero_spend(tag: u8, mark: u8) -> Spend {
    let fvk = OrchardFullViewingKey::from(&spending_key(tag));
    let recipient = fvk.address_at(0u32, Scope::External);
    let mut rho_bytes = [0u8; 32];
    rho_bytes[0] = mark;
    let rho = Rho::from_bytes(&rho_bytes).unwrap();
    for seed in 0u8..=255 {
        let rseed_bytes = [seed; 32];
        let accepted = RandomSeed::from_bytes(rseed_bytes, &rho)
            .into_option()
            .and_then(|rseed| {
                orchard::Note::from_parts(recipient, NoteValue::ZERO, rho, rseed, NoteVersion::V2)
                    .into_option()
            })
            .is_some();
        if accepted {
            let mut bytes = [0u8; 115];
            bytes[..43].copy_from_slice(&recipient.to_raw_address_bytes());
            bytes[51..83].copy_from_slice(&rho_bytes);
            bytes[83..].copy_from_slice(&rseed_bytes);
            return Spend::new(
                FullViewingKey::from_bytes(&fvk.to_bytes()).unwrap(),
                Note::from_bytes(&bytes).unwrap(),
            );
        }
    }
    panic!("no seed gives a note");
}

/// The signature of the key made of `tag`, randomized with `alpha`.
fn sign(tag: u8, alpha: &[u8; 32], sighash: &[u8; 32]) -> [u8; 64] {
    let alpha = pallas::Scalar::from_repr(*alpha).unwrap();
    let ask = SpendAuthorizingKey::from(&spending_key(tag));
    let mut rng = ChaCha12Rng::from_seed([3u8; 32]);
    let signature = ask.randomize(&alpha).sign(&mut rng, sighash);
    <[u8; 64]>::from(&signature)
}

/// A bundle of two spends and one output, prepared for signing.
fn prepared(rng: &mut Random) -> Bundle {
    let mut builder = Builder::default();
    builder.add_spend(zero_spend(5, 1)).unwrap();
    builder.add_spend(zero_spend(5, 2)).unwrap();
    builder.add_output(Output::new(None, Address::default().unwrap(), 0, None)).unwrap();
    let mut bundle = builder.build(rng).unwrap();
    bundle.prepare(rng, SIGHASH).unwrap();
    bundle
}

#[test]
fn built_bundle_refuses_what_its_phase_does_not_allow() {
    let mut builder = Builder::default();
    builder.add_output(Output::default().unwrap()).unwrap();
    let mut rng = Random::default();
    let mut bundle = builder.build(&mut rng).unwrap();
    assert_eq!(bundle.phase(), State::UnprovenAndUnauthorized);
    assert_eq!(
        bundle.append_signature([0u8; 32], [0u8; 64], &mut rng),
        Err(Error::IllegalStateTransition)
    );
    assert_eq!(bundle.finalize(), Err(Error::IllegalStateTransition));
    assert_eq!(bundle.serialized(), Err(Error::IllegalStateTransition));
    assert_eq!(bundle.state(), "Unproven & Unauthorized");
    assert!(bundle.is_some());
}

#[test]
fn prepared_bundle_refuses_what_its_phase_does_not_allow() {
    let mut rng = Random::default();
    let mut bundle = prepared(&mut rng);
    assert_eq!(bundle.phase(), State::UnprovenAndPartiallyAuthorized);
    let pending = bundle.pending_randomizers();
    assert_eq!(bundle.prepare(&mut rng, SIGHASH), Err(Error::IllegalStateTransition));
    assert_eq!(bundle.prepare(&mut rng, [1u8; 32]), Err(Error::IllegalStateTransition));
    assert_eq!(bundle.finalize(), Err(Error::IllegalStateTransition));
    assert_eq!(bundle.serialized(), Err(Error::IllegalStateTransition));
    assert_eq!(bundle.state(), "Unproven & PartiallyAuthorized");
    assert_eq!(bundle.pending_randomizers(), pending);
}

#[test]
fn state_is_the_same_until_a_move() {
    let mut rng = Random::default();
    let mut builder = Builder::default();
    builder.add_output(Output::default().unwrap()).unwrap();
    let mut bundle = builder.build(&mut rng).unwrap();
    for _ in 0..3 {
        assert_eq!(bundle.state(), "Unproven & Unauthorized");
    }
    bundle.prepare(&mut rng, SIGHASH).unwrap();
    for _ in 0..3 {
        assert_eq!(bundle.state(), "Unproven & PartiallyAuthorized");
        assert_eq!(bundle.state(), bundle.phase().name());
    }
}

#[test]
fn prepare_signs_the_dummy_spends() {
    let mut rng = Random::default();
    let mut builder = Builder::default();
    builder.add_output(Output::default().unwrap()).unwrap();
    let mut bundle = builder.build(&mut rng).unwrap();
    // Two dummy spends, for which no signature is owed from outside.
    assert_eq!(bundle.action_count(), 2);
    assert!(bundle.pending_randomizers().is_empty());
    bundle.prepare(&mut rng, SIGHASH).unwrap();
    assert_eq!(bundle.action_count(), 2);
    assert!(bundle.pending_randomizers().is_empty());
}

#[test]
fn one_signature_is_owed_for_each_spend() {
    let mut rng = Random::default();
    let bundle = prepared(&mut rng);
    let pending = bundle.pending_randomizers();
    assert_eq!(pending.len(), 2);
    assert_ne!(pending[0], pending[1]);
}

#[test]
fn signatures_are_taken_in_the_order_of_the_actions() {
    let mut rng = Random::default();
    let mut bundle = prepared(&mut rng);
    let pending = bundle.pending_randomizers();
    let first = sign(5, &pending[0], &SIGHASH);
    assert_eq!(bundle.append_signature(pending[0], first, &mut rng), Ok(()));
    assert_eq!(bundle.pending_randomizers(), vec![pending[1]]);
    assert_eq!(bundle.state(), "Unproven & PartiallyAuthorized");
    let second = sign(5, &pending[1], &SIGHASH);
    assert_eq!(bundle.append_signature(pending[1], second, &mut rng), Ok(()));
    assert!(bundle.pending_randomizers().is_empty());
    assert_eq!(bundle.state(), "Unproven & PartiallyAuthorized");
}

#[test]
fn signatures_are_taken_against_the_order_of_the_actions() {
    let mut rng = Random::default();
    let mut bundle = prepared(&mut rng);
    let pending = bundle.pending_randomizers();
    let second = sign(5, &pending[1], &SIGHASH);
    assert_eq!(bundle.append_signature(pending[1], second, &mut rng), Ok(()));
    assert_eq!(bundle.pending_randomizers(), vec![pending[0]]);
    let first = sign(5, &pending[0], &SIGHASH);
    assert_eq!(bundle.append_signature(pending[0], first, &mut rng), Ok(()));
    assert!(bundle.pending_randomizers().is_empty());
}

#[test]
fn signature_for_an_unknown_randomizer_is_a_mismatch() {
    let mut rng = Random::default();
    let mut bundle = prepared(&mut rng);
    let pending = bundle.pending_randomizers();
    let mut unknown = pending[0];
    unknown[0] ^= 1;
    let signature = sign(5, &pending[0], &SIGHASH);
    assert_eq!(
        bundle.append_signature(unknown, signature, &mut rng),
        Err(Error::SignatureMismatch)
    );
    // A randomizer that is no scalar is unknown as well.
    assert_eq!(
        bundle.append_signature([0xff; 32], signature, &mut rng),
        Err(Error::SignatureMismatch)
    );
    assert_eq!(bundle.pending_randomizers(), pending);
    assert_eq!(bundle.state(), "Unproven & PartiallyAuthorized");
}

#[test]
fn signature_that_is_not_valid_is_a_mismatch() {
    let mut rng = Random::default();
    let mut bundle = prepared(&mut rng);
    let pending = bundle.pending_randomizers();
    // Made with another key.
    let foreign = sign(6, &pending[0], &SIGHASH);
    assert_eq!(
        bundle.append_signature(pending[0], foreign, &mut rng),
        Err(Error::SignatureMismatch)
    );
    // Made for the other spend.
    let other = sign(5, &pending[1], &SIGHASH);
    assert_eq!(
        bundle.append_signature(pending[0], other, &mut rng),
        Err(Error::SignatureMismatch)
    );
    // Made over another digest.
    let stale = sign(5, &pending[0], &[8u8; 32]);
    assert_eq!(
        bundle.append_signature(pending[0], stale, &mut rng),
        Err(Error::SignatureMismatch)
    );
    assert_eq!(
        bundle.append_signature(pending[0], [0u8; 64], &mut rng),
        Err(Error::SignatureMismatch)
    );
    assert_eq!(bundle.pending_randomizers(), pending);
    // The refusals have not spoilt the bundle.
    let good = sign(5, &pending[0], &SIGHASH);
    assert_eq!(bundle.append_signature(pending[0], good, &mut rng), Ok(()));
}

#[test]
fn second_signature_for_a_spend_is_a_duplicate() {
    let mut rng = Random::default();
    let mut bundle = prepared(&mut rng);
    let pending = bundle.pending_randomizers();
    let signature = sign(5, &pending[0], &SIGHASH);
    assert_eq!(bundle.append_signature(pending[0], signature, &mut rng), Ok(()));
    assert_eq!(
        bundle.append_signature(pending[0], signature, &mut rng),
        Err(Error::DuplicateSignature)
    );
    assert_eq!(
        bundle.append_signature(pending[0], [0u8; 64], &mut rng),
        Err(Error::DuplicateSignature)
    );
    assert_eq!(bundle.pending_randomizers(), vec![pending[1]]);
}

#[test]
fn same_seed_gives_the_same_randomizers() {
    let mut rng = Random::default();
    let first = prepared(&mut rng).pending_randomizers();
    let mut rng = Random::default();
    let second = prepared(&mut rng).pending_randomizers();
    assert_eq!(first, second);
    let mut rng = Random::from_seed([1u8; 32]);
    let third = prepared(&mut rng).pending_randomizers();
    assert_ne!(first, third);
}

#[test]
fn bundle_has_an_action_for_each_request_and_two_at_least() {
    let cases = [(0u8, 0u8, 2usize), (1, 0, 2), (0, 1, 2), (2, 1, 2), (1, 3, 3), (3, 1, 3)];
    for (spends, outputs, actions) in cases {
        let mut rng = Random::default();
        let mut builder = Builder::default();
        for mark in 0..spends {
            builder.add_spend(zero_spend(5, mark + 1)).unwrap();
        }
        for _ in 0..outputs {
            builder.add_output(Output::default().unwrap()).unwrap();
        }
        let mut bundle = builder.build(&mut rng).unwrap();
        assert_eq!(bundle.action_count(), actions);
        // A signature is owed for each spend that was asked for, and for no
        // dummy.
        let owed = bundle.pending_randomizers();
        assert_eq!(owed.len(), spends as usize);
        bundle.prepare(&mut rng, SIGHASH).unwrap();
        assert_eq!(bundle.action_count(), actions);
        assert_eq!(bundle.pending_randomizers(), owed);
    }
}

use pyorchard::{Error, Operation, Random, State};

const STATES: [State; 5] = [
    State::UnprovenAndUnauthorized,
    State::UnprovenAndPartiallyAuthorized,
    State::ProofAndUnauthorized,
    State::ProofAndPartiallyAuthorized,
    State::Authorized,
];

const OPERATIONS: [Operation; 5] = [
    Operation::CreateProof,
    Operation::Prepare,
    Operation::AppendSignature,
    Operation::Finalize,
    Operation::Serialize,
];

#[test]
fn legal_moves_are_those_of_the_table() {
    let s1 = State::UnprovenAndUnauthorized;
    let s2 = State::UnprovenAndPartiallyAuthorized;
    let s3 = State::ProofAndUnauthorized;
    let s4 = State::ProofAndPartiallyAuthorized;
    let s5 = State::Authorized;
    let legal = [
        (s1, Operation::CreateProof, s3),
        (s2, Operation::CreateProof, s4),
        (s1, Operation::Prepare, s2),
        (s3, Operation::Prepare, s4),
        (s2, Operation::AppendSignature, s2),
        (s4, Operation::AppendSignature, s4),
        (s4, Operation::Finalize, s5),
        (s5, Operation::Serialize, s5),
    ];
    let mut count = 0;
    for state in STATES {
        for op in OPERATIONS {
            let expected = legal
                .iter()
                .find(|(s, o, _)| *s == state && *o == op)
                .map(|(_, _, next)| *next);
            assert_eq!(state.next(op), expected);
            if expected.is_some() {
                count += 1;
            }
        }
    }
    assert_eq!(count, 8);
}

#[test]
fn finalize_is_legal_in_one_phase_only() {
    for state in STATES {
        let legal = state.next(Operation::Finalize).is_some();
        assert_eq!(legal, state == State::ProofAndPartiallyAuthorized);
    }
}

#[test]
fn phases_have_their_names() {
    assert_eq!(State::UnprovenAndUnauthorized.name(), "Unproven & Unauthorized");
    assert_eq!(State::UnprovenAndPartiallyAuthorized.name(), "Unproven & PartiallyAuthorized");
    assert_eq!(State::ProofAndUnauthorized.name(), "Proven & Unauthorized");
    assert_eq!(State::ProofAndPartiallyAuthorized.name(), "Proven & PartiallyAuthorized");
    assert_eq!(State::Authorized.name(), "Authorized");
}

#[test]
fn only_illegal_transition_is_a_misuse() {
    let all = [
        Error::Decode,
        Error::BuilderExhausted,
        Error::CapabilityViolation,
        Error::MissingMembershipProof,
        Error::InvalidAnchor,
        Error::KeyMismatch,
        Error::ProofGenerationFailure,
        Error::SignatureMismatch,
        Error::DuplicateSignature,
        Error::IncompleteAuthorization,
        Error::ValueBalance,
        Error::Encode,
        Error::IllegalStateTransition,
    ];
    for e in all {
        assert_eq!(e.recoverable(), e != Error::IllegalStateTransition);
    }
}

#[test]
fn default_source_has_the_zero_seed() {
    assert!(Random::default().is_test_source());
    assert!(Random::from_seed([0u8; 32]).is_test_source());
    assert!(!Random::from_seed([1u8; 32]).is_test_source());
    let mut seed = [0u8; 32];
    seed[31] = 1;
    assert!(!Random::from_seed(seed).is_test_source());
}

#[test]
fn forked_source_has_a_seed_of_its_own() {
    let mut source = Random::default();
    let child = source.fork();
    assert!(source.is_test_source());
    assert!(!child.is_test_source());
}

use pyorchard::builder::{explain_build_fault, explain_spend_fault, BuildFault, SpendFault};
use pyorchard::bundle::{finalize_error, prepare_error};
use pyorchard::pczt::{ExtractFault, IoFault};
use pyorchard::Error;

#[test]
fn refused_spend_is_named() {
    assert_eq!(explain_spend_fault(SpendFault::Disabled), Error::CapabilityViolation);
    assert_eq!(explain_spend_fault(SpendFault::AnchorMismatch), Error::InvalidAnchor);
    assert_eq!(explain_spend_fault(SpendFault::KeyMismatch), Error::KeyMismatch);
    assert_eq!(explain_spend_fault(SpendFault::Unwitnessed), Error::MissingMembershipProof);
}

#[test]
fn refused_build_is_named() {
    assert_eq!(explain_build_fault(BuildFault::Balance), Error::ValueBalance);
    assert_eq!(explain_build_fault(BuildFault::Anchor), Error::InvalidAnchor);
    assert_eq!(explain_build_fault(BuildFault::Refused), Error::CapabilityViolation);
}

#[test]
fn refused_preparation_is_named() {
    assert_eq!(prepare_error(IoFault::CrossAddress), Error::CapabilityViolation);
    assert_eq!(prepare_error(IoFault::ValueCommitment), Error::ValueBalance);
    assert_eq!(prepare_error(IoFault::DummySignature), Error::SignatureMismatch);
}

#[test]
fn refused_seal_is_named() {
    assert_eq!(finalize_error(ExtractFault::Unsigned), Error::IncompleteAuthorization);
    assert_eq!(finalize_error(ExtractFault::Balance), Error::ValueBalance);
    assert_eq!(finalize_error(ExtractFault::Unproven), Error::ProofGenerationFailure);
    assert_eq!(finalize_error(ExtractFault::Empty), Error::ProofGenerationFailure);
    assert_eq!(finalize_error(ExtractFault::Unfit), Error::ProofGenerationFailure);
}

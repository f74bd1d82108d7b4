use vstd::prelude::*;

verus! {

/// Why an operation was refused.
///
/// All kinds but [`Error::IllegalStateTransition`] describe the data that was
/// handed in. `IllegalStateTransition` says that the operation is not one of
/// the phase the bundle is in, which is a mistake of the calling program.
#[derive(Clone, Copy, Debug, PartialEq, Eq, Structural)]
pub enum Error {
    /// A buffer has the wrong length or does not decode.
    Decode,
    /// The builder has already yielded its bundle.
    BuilderExhausted,
    /// A spend or an output was added although the flags disable it.
    CapabilityViolation,
    /// A Merkle path does not have one sibling for each level of the tree.
    MissingMembershipProof,
    /// The anchor does not decode, or a spend's path does not lead to it.
    InvalidAnchor,
    /// The full viewing key of a spend does not own its note.
    KeyMismatch,
    /// No proof could be made for the bundle.
    ProofGenerationFailure,
    /// No action has the given randomizer, or the signature is not valid for
    /// the action that has it.
    SignatureMismatch,
    /// The action with the given randomizer is signed already.
    DuplicateSignature,
    /// An action still lacks its signature.
    IncompleteAuthorization,
    /// A value or the balance of all values is out of range.
    ValueBalance,
    /// The sealed bundle is too large for the encoding.
    Encode,
    /// The operation does not belong to the bundle's phase.
    IllegalStateTransition,
}

impl Error {
    /// Whether the error describes the data, so that the caller may mend the
    /// data and try again.
    pub open spec fn is_recoverable(self) -> bool {
        self != Error::IllegalStateTransition
    }

    /// Tells a data error from a misuse of the interface.
    pub fn recoverable(&self) -> (r: bool)
        ensures
            r == self.is_recoverable(),
    {
        match self {
            Error::IllegalStateTransition => false,
            _ => true,
        }
    }
}

} // verus!

//! The phases of a bundle and the moves between them.

use vstd::prelude::*;

verus! {

/// The phase a bundle is in: whether it has its proof, and how far its
/// signing has come.
#[derive(Clone, Copy, Debug, PartialEq, Eq, Structural)]
pub enum State {
    /// Built: no proof, no digest to sign.
    UnprovenAndUnauthorized,
    /// Prepared for signing, not yet proved.
    UnprovenAndPartiallyAuthorized,
    /// Proved, not yet prepared for signing.
    ProofAndUnauthorized,
    /// Proved and prepared: signatures are being gathered.
    ProofAndPartiallyAuthorized,
    /// Sealed: the proof and every signature are in place.
    Authorized,
}

/// What can be asked of a bundle.
#[derive(Clone, Copy, Debug, PartialEq, Eq, Structural)]
pub enum Operation {
    /// Make the proof.
    CreateProof,
    /// Take in the digest that the signatures are to sign.
    Prepare,
    /// Take in the signature of one spend.
    AppendSignature,
    /// Seal the bundle.
    Finalize,
    /// Encode the sealed bundle.
    Serialize,
}

impl State {
    /// The phase that an operation leads to, where the phase allows the
    /// operation.
    pub open spec fn after(self, op: Operation) -> Option<State> {
        match (self, op) {
            (State::UnprovenAndUnauthorized, Operation::CreateProof) => Some(
                State::ProofAndUnauthorized,
            ),
            (State::UnprovenAndPartiallyAuthorized, Operation::CreateProof) => Some(
                State::ProofAndPartiallyAuthorized,
            ),
            (State::UnprovenAndUnauthorized, Operation::Prepare) => Some(
                State::UnprovenAndPartiallyAuthorized,
            ),
            (State::ProofAndUnauthorized, Operation::Prepare) => Some(
                State::ProofAndPartiallyAuthorized,
            ),
            (State::UnprovenAndPartiallyAuthorized, Operation::AppendSignature) => Some(
                State::UnprovenAndPartiallyAuthorized,
            ),
            (State::ProofAndPartiallyAuthorized, Operation::AppendSignature) => Some(
                State::ProofAndPartiallyAuthorized,
            ),
            (State::ProofAndPartiallyAuthorized, Operation::Finalize) => Some(State::Authorized),
            (State::Authorized, Operation::Serialize) => Some(State::Authorized),
            _ => None,
        }
    }

    /// Whether a bundle in this phase has its proof.
    pub open spec fn has_proof(self) -> bool {
        self == State::ProofAndUnauthorized || self == State::ProofAndPartiallyAuthorized || self
            == State::Authorized
    }

    /// Whether a bundle in this phase holds the digest to sign and gathers
    /// signatures.
    pub open spec fn is_signing(self) -> bool {
        self == State::UnprovenAndPartiallyAuthorized || self
            == State::ProofAndPartiallyAuthorized
    }

    /// How far the phase is from the start: one step for the proof, one for
    /// the digest, one for the seal.
    pub open spec fn progress(self) -> nat {
        match self {
            State::UnprovenAndUnauthorized => 0,
            State::UnprovenAndPartiallyAuthorized => 1,
            State::ProofAndUnauthorized => 1,
            State::ProofAndPartiallyAuthorized => 2,
            State::Authorized => 3,
        }
    }

    /// The name of the phase.
    pub open spec fn label(self) -> Seq<char> {
        match self {
            State::UnprovenAndUnauthorized => "Unproven & Unauthorized"@,
            State::UnprovenAndPartiallyAuthorized => "Unproven & PartiallyAuthorized"@,
            State::ProofAndUnauthorized => "Proven & Unauthorized"@,
            State::ProofAndPartiallyAuthorized => "Proven & PartiallyAuthorized"@,
            State::Authorized => "Authorized"@,
        }
    }

    /// The phase that an operation leads to, or `None` where this phase does
    /// not allow the operation.
    pub fn next(self, op: Operation) -> (r: Option<State>)
        ensures
            r == self.after(op),
    {
        match (self, op) {
            (State::UnprovenAndUnauthorized, Operation::CreateProof) => Some(
                State::ProofAndUnauthorized,
            ),
            (State::UnprovenAndPartiallyAuthorized, Operation::CreateProof) => Some(
                State::ProofAndPartiallyAuthorized,
            ),
            (State::UnprovenAndUnauthorized, Operation::Prepare) => Some(
                State::UnprovenAndPartiallyAuthorized,
            ),
            (State::ProofAndUnauthorized, Operation::Prepare) => Some(
                State::ProofAndPartiallyAuthorized,
            ),
            (State::UnprovenAndPartiallyAuthorized, Operation::AppendSignature) => Some(self),
            (State::ProofAndPartiallyAuthorized, Operation::AppendSignature) => Some(self),
            (State::ProofAndPartiallyAuthorized, Operation::Finalize) => Some(State::Authorized),
            (State::Authorized, Operation::Serialize) => Some(self),
            _ => None,
        }
    }

    /// The name of the phase.
    pub fn name(self) -> (r: &'static str)
        ensures
            r@ == self.label(),
    {
        match self {
            State::UnprovenAndUnauthorized => "Unproven & Unauthorized",
            State::UnprovenAndPartiallyAuthorized => "Unproven & PartiallyAuthorized",
            State::ProofAndUnauthorized => "Proven & Unauthorized",
            State::ProofAndPartiallyAuthorized => "Proven & PartiallyAuthorized",
            State::Authorized => "Authorized",
        }
    }

    /// There are eight legal moves and no more: every phase but the last
    /// allows at most two operations.
    pub proof fn lemma_legal_moves(self, op: Operation)
        ensures
            self.after(op) is Some <==> {
                ||| op == Operation::CreateProof && !self.has_proof()
                ||| op == Operation::Prepare && !self.is_signing() && self != State::Authorized
                ||| op == Operation::AppendSignature && self.is_signing()
                ||| op == Operation::Finalize && self == State::ProofAndPartiallyAuthorized
                ||| op == Operation::Serialize && self == State::Authorized
            },
    {
    }

    /// No move goes back: the proof, the digest and the seal stay once they
    /// are there, and only signing and encoding leave the phase as it is.
    pub proof fn lemma_moves_go_forward(self, op: Operation)
        ensures
            self.after(op) matches Some(next) ==> {
                &&& self.has_proof() ==> next.has_proof()
                &&& next.progress() >= self.progress()
                &&& next.progress() == self.progress() <==> next == self
                &&& next == self <==> (op == Operation::AppendSignature || op
                    == Operation::Serialize)
            },
    {
    }

    /// The sealed phase is final: a sealed bundle can only be encoded.
    pub proof fn lemma_authorized_is_terminal(op: Operation)
        ensures
            State::Authorized.after(op) is Some <==> op == Operation::Serialize,
            State::Authorized.after(op) matches Some(next) ==> next == State::Authorized,
    {
    }

    /// The seal is reached from one phase only, and so only with a proof and
    /// after the signing was prepared.
    pub proof fn lemma_seal_needs_proof_and_digest(self, op: Operation)
        ensures
            self.after(op) == Some(State::Authorized) && self != State::Authorized ==> op
                == Operation::Finalize && self.has_proof() && self.is_signing(),
    {
    }
}

} // verus!

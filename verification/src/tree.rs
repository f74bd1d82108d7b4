//! Merkle paths: the proof that a note is in the tree that an anchor stands for.

use vstd::prelude::*;

use orchard::tree::MerklePath as OrchardMerklePath;

use crate::encoding::{is_base_element, lemma_top_byte_decides, TREE_DEPTH};
use crate::error::Error;

verus! {

/// orchard's Merkle path, which this crate carries and never looks into.
#[verifier::external_type_specification]
#[verifier::external_body]
pub struct ExOrchardMerklePath(OrchardMerklePath);

/// What a Merkle path holds.
pub struct PathView {
    /// The position of the note among the leaves.
    pub position: u32,
    /// The sibling at each level, from the leaves up, each in 32 bytes.
    pub siblings: Seq<Seq<u8>>,
}

/// Whether orchard reads a node of the tree from these bytes: a node is an
/// element of the base field.
pub open spec fn tree_node_decodes(bytes: Seq<u8>) -> bool {
    is_base_element(bytes)
}

/// Whether orchard reads each of these siblings as a node of the tree.
pub open spec fn siblings_decode(siblings: Seq<Seq<u8>>) -> bool {
    forall|i: int| 0 <= i < siblings.len() ==> tree_node_decodes(#[trigger] siblings[i])
}

/// Calls `orchard::tree::MerklePath::from_parts`, after reading each sibling
/// with `MerkleHashOrchard::from_bytes`. Trusted: a path comes back if and
/// only if each sibling is the encoding of an element of the base field.
/// The path that comes back holds the position and the siblings beside what
/// orchard made of them.
#[verifier::external_body]
fn decode_path(position: u32, siblings: [[u8; 32]; 32]) -> (r: Option<MerklePath>)
    ensures
        r is Some == (forall|i: int|
            0 <= i < 32 ==> tree_node_decodes(#[trigger] MerklePath::siblings_of(siblings@)[i])),
        r matches Some(path) ==> path@ == (PathView {
            position,
            siblings: MerklePath::siblings_of(siblings@),
        }),
{
    let nodes: Option<Vec<orchard::tree::MerkleHashOrchard>> = siblings.iter().map(
        |s| orchard::tree::MerkleHashOrchard::from_bytes(s).into_option(),
    ).collect();
    let inner = OrchardMerklePath::from_parts(position, nodes?.try_into().ok()?);
    Some(MerklePath { position, siblings, inner })
}

/// The path from a note's commitment up to the root of the tree.
///
/// It holds its position and siblings, and beside them what orchard made
/// of those: only `decode_path` makes one.
pub struct MerklePath {
    position: u32,
    siblings: [[u8; 32]; 32],
    pub(crate) inner: OrchardMerklePath,
}

impl View for MerklePath {
    type V = PathView;

    closed spec fn view(&self) -> PathView {
        PathView { position: self.position, siblings: Self::siblings_of(self.siblings@) }
    }
}

impl MerklePath {
    #[verifier::type_invariant]
    spec fn valid(self) -> bool {
        siblings_decode(Self::siblings_of(self.siblings@))
    }

    /// The views of the given siblings.
    pub open spec fn siblings_of(siblings: Seq<[u8; 32]>) -> Seq<Seq<u8>> {
        Seq::new(siblings.len(), |i: int| siblings[i]@)
    }

    /// The error that [`MerklePath::from_parts`] gives for these siblings, if
    /// it gives one.
    pub open spec fn refusal(siblings: Seq<Seq<u8>>) -> Option<Error> {
        if siblings.len() != TREE_DEPTH {
            Some(Error::MissingMembershipProof)
        } else if !siblings_decode(siblings) {
            Some(Error::Decode)
        } else {
            None
        }
    }

    /// Makes a path of a position and one sibling for each of the 32 levels.
    pub fn from_parts(position: u32, siblings: &[[u8; 32]]) -> (r: Result<MerklePath, Error>)
        ensures
            match r {
                Ok(p) => Self::refusal(Self::siblings_of(siblings@)) is None && p@ == (PathView {
                    position,
                    siblings: Self::siblings_of(siblings@),
                }),
                Err(e) => Self::refusal(Self::siblings_of(siblings@)) == Some(e),
            },
    {
        if siblings.len() != TREE_DEPTH {
            return Err(Error::MissingMembershipProof);
        }
        let mut held = [[0u8; 32]; 32];
        let mut i: usize = 0;
        while i < 32
            invariant
                i <= 32,
                siblings@.len() == 32,
                held@.len() == 32,
                forall|j: int| 0 <= j < i ==> held@[j] == siblings@[j],
            decreases 32 - i,
        {
            held[i] = siblings[i];
            i += 1;
        }
        assert(Self::siblings_of(held@) =~= Self::siblings_of(siblings@));
        assert(Self::siblings_of(held@).len() == 32);
        match decode_path(position, held) {
            Some(path) => Ok(path),
            None => Err(Error::Decode),
        }
    }

    /// The path that stands in where a spend brings none: position 0, every
    /// sibling zero. It proves membership only in a tree made for a test.
    pub fn dummy() -> (p: MerklePath)
        ensures
            p@ == (PathView { position: 0, siblings: Self::dummy_siblings() }),
    {
        let siblings = [[0u8; 32]; 32];
        proof {
            assert(Self::siblings_of(siblings@) =~~= Self::dummy_siblings());
            assert forall|i: int| 0 <= i < 32 implies tree_node_decodes(
                #[trigger] Self::dummy_siblings()[i],
            ) by {
                lemma_top_byte_decides(Self::dummy_siblings()[i]);
            }
        }
        match Self::from_parts(0, siblings.as_slice()) {
            Ok(p) => p,
            Err(_) => unreached(),
        }
    }

    /// The siblings of [`MerklePath::dummy`].
    pub open spec fn dummy_siblings() -> Seq<Seq<u8>> {
        Seq::new(32, |i: int| Seq::new(32, |j: int| 0u8))
    }

    /// The position of the note among the leaves.
    pub fn position(&self) -> (p: u32)
        ensures
            p == self@.position,
    {
        self.position
    }
}

} // verus!

//! Notes, and their encoding of 115 bytes.
//!
//! The encoding holds the recipient's raw address (43 bytes), the value as
//! eight bytes, least significant first, then rho (32 bytes) and the random
//! seed (32 bytes).

use vstd::bytes::{
    lemma_auto_spec_u64_to_from_le_bytes, spec_u64_from_le_bytes, spec_u64_to_le_bytes,
    u64_from_le_bytes, u64_to_le_bytes,
};
use vstd::prelude::*;
use vstd::slice::slice_subrange;

use orchard::Note as OrchardNote;

use crate::encoding::{is_base_element, put_slice, take_array, NOTE_LEN};
use crate::error::Error;
use crate::keys::raw_address_decodes;

verus! {

/// orchard's note, which this crate carries and never looks into.
#[verifier::external_type_specification]
#[verifier::external_body]
pub struct ExOrchardNote(OrchardNote);

/// What a note holds.
pub struct NoteView {
    /// The raw address of the recipient.
    pub recipient: Seq<u8>,
    /// The value, in the smallest unit.
    pub value: u64,
    /// The encoding of rho.
    pub rho: Seq<u8>,
    /// The random seed.
    pub rseed: Seq<u8>,
}

impl NoteView {
    /// Whether each part has the length that the encoding gives it.
    pub open spec fn well_sized(self) -> bool {
        &&& self.recipient.len() == 43
        &&& self.rho.len() == 32
        &&& self.rseed.len() == 32
    }

    /// Whether orchard makes a note of these parts: it reads the address
    /// and rho, the seed fits rho, and the note has a commitment.
    pub open spec fn decodes(self) -> bool {
        &&& raw_address_decodes(self.recipient)
        &&& rho_decodes(self.rho)
        &&& seed_fits(self.rseed, self.rho)
        &&& note_commits(self.recipient, self.value, self.rho, self.rseed)
    }
}

/// Whether orchard reads rho from these bytes: rho is an element of the
/// base field.
pub open spec fn rho_decodes(rho: Seq<u8>) -> bool {
    is_base_element(rho)
}

/// Whether orchard takes these 32 bytes for the random seed of a note with
/// the given rho.
pub uninterp spec fn seed_fits(rseed: Seq<u8>, rho: Seq<u8>) -> bool;

/// Whether the note of these parts, each of which orchard reads, has a
/// commitment.
pub uninterp spec fn note_commits(
    recipient: Seq<u8>,
    value: u64,
    rho: Seq<u8>,
    rseed: Seq<u8>,
) -> bool;

/// Calls `orchard::Note::from_parts` for a note of the Orchard pool, after
/// reading its arguments with `Address::from_raw_address_bytes`,
/// `Rho::from_bytes` and `RandomSeed::from_bytes`. Trusted: a note comes back
/// if and only if each of the four calls gives its value, which depends on
/// what the call is handed alone; rho is read from the encoding of an
/// element of the base field. The note that comes back holds the four
/// parts beside what orchard made of them.
#[verifier::external_body]
fn decode_note_parts(recipient: [u8; 43], value: u64, rho: [u8; 32], rseed: [u8; 32]) -> (r:
    Option<Note>)
    ensures
        r is Some == (raw_address_decodes(recipient@) && rho_decodes(rho@) && seed_fits(
            rseed@,
            rho@,
        ) && note_commits(recipient@, value, rho@, rseed@)),
        r matches Some(note) ==> note@ == (NoteView {
            recipient: recipient@,
            value,
            rho: rho@,
            rseed: rseed@,
        }),
{
    let version = orchard::bundle::BundleVersion::orchard_v2().note_version();
    let to = orchard::Address::from_raw_address_bytes(&recipient).into_option()?;
    let r = orchard::note::Rho::from_bytes(&rho).into_option()?;
    let seed = orchard::note::RandomSeed::from_bytes(rseed, &r).into_option()?;
    let amount = orchard::value::NoteValue::from_raw(value);
    let read = OrchardNote::from_parts(to, amount, r, seed, version).into_option();
    read.map(|inner| Note { recipient, value, rho, rseed, inner })
}

/// An unspent note.
///
/// It holds the parts of its encoding, and beside them what orchard made of
/// those parts: only `decode_note_parts` makes one.
pub struct Note {
    recipient: [u8; 43],
    value: u64,
    rho: [u8; 32],
    rseed: [u8; 32],
    pub(crate) inner: OrchardNote,
}

impl View for Note {
    type V = NoteView;

    closed spec fn view(&self) -> NoteView {
        NoteView {
            recipient: self.recipient@,
            value: self.value,
            rho: self.rho@,
            rseed: self.rseed@,
        }
    }
}

impl Note {
    #[verifier::type_invariant]
    spec fn valid(self) -> bool {
        self@.decodes()
    }

    /// The 115 bytes that stand for a note.
    pub open spec fn encode(note: NoteView) -> Seq<u8> {
        note.recipient + spec_u64_to_le_bytes(note.value) + note.rho + note.rseed
    }

    /// The parts that 115 bytes stand for.
    pub open spec fn split(bytes: Seq<u8>) -> NoteView {
        NoteView {
            recipient: bytes.subrange(0, 43),
            value: spec_u64_from_le_bytes(bytes.subrange(43, 51)),
            rho: bytes.subrange(51, 83),
            rseed: bytes.subrange(83, 115),
        }
    }

    /// What [`Note::from_bytes`] makes of a buffer: the note it holds, if it
    /// holds one.
    pub open spec fn decode(bytes: Seq<u8>) -> Option<NoteView> {
        if bytes.len() == NOTE_LEN && Self::split(bytes).decodes() {
            Some(Self::split(bytes))
        } else {
            None
        }
    }

    /// Reads a note from its encoding of 115 bytes.
    pub fn from_bytes(bytes: &[u8]) -> (r: Result<Note, Error>)
        ensures
            match r {
                Ok(n) => Self::decode(bytes@) == Some(n@),
                Err(e) => e == Error::Decode && Self::decode(bytes@) is None,
            },
    {
        if bytes.len() != NOTE_LEN {
            return Err(Error::Decode);
        }
        let recipient: [u8; 43] = take_array(bytes, 0);
        let value = u64_from_le_bytes(slice_subrange(bytes, 43, 51));
        let rho: [u8; 32] = take_array(bytes, 51);
        let rseed: [u8; 32] = take_array(bytes, 83);
        match decode_note_parts(recipient, value, rho, rseed) {
            Some(note) => Ok(note),
            None => Err(Error::Decode),
        }
    }

    /// The encoding of the note.
    pub fn to_bytes(&self) -> (r: [u8; 115])
        ensures
            r@ == Self::encode(self@),
            Self::decode(r@) == Some(self@),
    {
        let mut out = [0u8; 115];
        let value = u64_to_le_bytes(self.value);
        put_slice(&mut out, 0, self.recipient.as_slice());
        put_slice(&mut out, 43, value.as_slice());
        put_slice(&mut out, 51, self.rho.as_slice());
        put_slice(&mut out, 83, self.rseed.as_slice());
        proof {
            use_type_invariant(self);
            assert(out@ =~= Self::encode(self@));
            Self::lemma_split_of_encode(self@);
        }
        out
    }

    /// The value of the note.
    pub fn value(&self) -> (v: u64)
        ensures
            v == self@.value,
    {
        self.value
    }

    /// Splitting the encoding of a note gives the note back.
    pub proof fn lemma_split_of_encode(note: NoteView)
        requires
            note.well_sized(),
        ensures
            Self::encode(note).len() == NOTE_LEN,
            Self::split(Self::encode(note)) == note,
    {
        lemma_auto_spec_u64_to_from_le_bytes();
        let bytes = Self::encode(note);
        let parts = Self::split(bytes);
        assert(bytes.subrange(0, 43) =~= note.recipient);
        assert(bytes.subrange(43, 51) =~= spec_u64_to_le_bytes(note.value));
        assert(bytes.subrange(51, 83) =~= note.rho);
        assert(bytes.subrange(83, 115) =~= note.rseed);
    }

    /// Encoding the parts of a buffer of 115 bytes gives the buffer back.
    pub proof fn lemma_encode_of_split(bytes: Seq<u8>)
        requires
            bytes.len() == NOTE_LEN,
        ensures
            Self::split(bytes).well_sized(),
            Self::encode(Self::split(bytes)) == bytes,
    {
        lemma_auto_spec_u64_to_from_le_bytes();
        let middle = bytes.subrange(43, 51);
        assert(spec_u64_to_le_bytes(spec_u64_from_le_bytes(middle)) == middle);
        assert(Self::encode(Self::split(bytes)) =~= bytes);
    }

    /// Decoding undoes encoding: a note that orchard accepts is read back from
    /// its own encoding.
    pub proof fn lemma_decode_of_encode(note: NoteView)
        requires
            note.well_sized(),
            note.decodes(),
        ensures
            Self::decode(Self::encode(note)) == Some(note),
    {
        Self::lemma_split_of_encode(note);
    }

    /// Encoding undoes decoding: a buffer that holds a note is the encoding of
    /// that note, and a buffer of another length than 115 holds none.
    pub proof fn lemma_encode_of_decode(bytes: Seq<u8>)
        ensures
            Self::decode(bytes) matches Some(note) ==> Self::encode(note) == bytes,
            bytes.len() != NOTE_LEN ==> Self::decode(bytes) is None,
    {
        if bytes.len() == NOTE_LEN {
            Self::lemma_encode_of_split(bytes);
        }
    }
}

} // verus!

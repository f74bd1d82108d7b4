//! Payment addresses and full viewing keys, each held by its encoding.

use vstd::prelude::*;

use orchard::keys::FullViewingKey as OrchardFullViewingKey;
use orchard::Address as OrchardAddress;

use crate::encoding::{take_array, ADDRESS_LEN, FULL_VIEWING_KEY_LEN};
use crate::error::Error;

verus! {

/// orchard's address, which this crate carries and never looks into.
#[verifier::external_type_specification]
#[verifier::external_body]
pub struct ExOrchardAddress(OrchardAddress);

/// orchard's full viewing key, which this crate carries and never looks
/// into.
#[verifier::external_type_specification]
#[verifier::external_body]
pub struct ExOrchardFullViewingKey(OrchardFullViewingKey);

/// Whether orchard reads a payment address from these 43 bytes.
pub uninterp spec fn raw_address_decodes(bytes: Seq<u8>) -> bool;

/// Whether orchard reads a full viewing key from these 96 bytes.
pub uninterp spec fn full_viewing_key_decodes(bytes: Seq<u8>) -> bool;

/// Calls `orchard::Address::from_raw_address_bytes`. Trusted: whether it
/// returns an address depends on the bytes alone. The address that comes
/// back holds those bytes beside what orchard read from them.
#[verifier::external_body]
fn decode_raw_address(bytes: &[u8; 43]) -> (r: Option<Address>)
    ensures
        r is Some == raw_address_decodes(bytes@),
        r matches Some(address) ==> address@ == bytes@,
{
    let read = OrchardAddress::from_raw_address_bytes(bytes).into_option();
    read.map(|inner| Address { bytes: *bytes, inner })
}

/// Calls `orchard::keys::FullViewingKey::from_bytes`. Trusted: whether it
/// returns a key depends on the bytes alone. The key that comes back holds
/// those bytes beside what orchard read from them.
#[verifier::external_body]
fn decode_full_viewing_key(bytes: &[u8; 96]) -> (r: Option<FullViewingKey>)
    ensures
        r is Some == full_viewing_key_decodes(bytes@),
        r matches Some(key) ==> key@ == bytes@,
{
    let read = OrchardFullViewingKey::from_bytes(bytes);
    read.map(|inner| FullViewingKey { bytes: *bytes, inner })
}

/// A shielded payment address: the recipient of an output.
///
/// It holds its raw encoding, and beside it what orchard read from that
/// encoding: only `decode_raw_address` makes one.
pub struct Address {
    bytes: [u8; 43],
    pub(crate) inner: OrchardAddress,
}

impl View for Address {
    type V = Seq<u8>;

    closed spec fn view(&self) -> Seq<u8> {
        self.bytes@
    }
}

impl Address {
    #[verifier::type_invariant]
    spec fn decodes(self) -> bool {
        raw_address_decodes(self.bytes@)
    }

    /// What [`Address::from_bytes`] makes of a buffer: the address it holds,
    /// if it holds one.
    pub open spec fn decode(bytes: Seq<u8>) -> Option<Seq<u8>> {
        if bytes.len() == ADDRESS_LEN && raw_address_decodes(bytes) {
            Some(bytes)
        } else {
            None
        }
    }

    /// The raw encoding of an address.
    pub open spec fn encode(address: Seq<u8>) -> Seq<u8> {
        address
    }

    /// Reads an address from its raw encoding of 43 bytes.
    pub fn from_bytes(bytes: &[u8]) -> (r: Result<Address, Error>)
        ensures
            match r {
                Ok(a) => Self::decode(bytes@) == Some(a@),
                Err(e) => e == Error::Decode && Self::decode(bytes@) is None,
            },
    {
        if bytes.len() != ADDRESS_LEN {
            return Err(Error::Decode);
        }
        let raw: [u8; 43] = take_array(bytes, 0);
        assert(raw@ =~= bytes@);
        match decode_raw_address(&raw) {
            Some(address) => Ok(address),
            None => Err(Error::Decode),
        }
    }

    /// The raw encoding of the address.
    pub fn to_bytes(&self) -> (r: [u8; 43])
        ensures
            r@ == Self::encode(self@),
            Self::decode(r@) == Some(self@),
    {
        proof {
            use_type_invariant(self);
        }
        self.bytes
    }

    /// Decoding undoes encoding and encoding undoes decoding: an address
    /// that orchard accepts is read back from its own encoding, a buffer
    /// that holds an address is the encoding of that address, and a buffer of
    /// another length than 43 holds none.
    pub proof fn lemma_round_trip(bytes: Seq<u8>)
        ensures
            bytes.len() == ADDRESS_LEN && raw_address_decodes(bytes) ==> Self::decode(
                Self::encode(bytes),
            ) == Some(bytes),
            Self::decode(bytes) matches Some(address) ==> Self::encode(address) == bytes,
            bytes.len() != ADDRESS_LEN ==> Self::decode(bytes) is None,
    {
    }

    /// The address that the examples pay to.
    pub fn default() -> (r: Result<Address, Error>)
        ensures
            match r {
                Ok(a) => Self::decode(Self::default_bytes()) == Some(a@),
                Err(e) => e == Error::Decode && Self::decode(Self::default_bytes()) is None,
            },
    {
        let bytes: [u8; 43] = [
            143, 243, 56, 105, 113, 203, 100, 184, 231, 120, 153, 8, 221, 142, 189, 125, 233, 42,
            104, 229, 134, 163, 77, 184, 254, 169, 153, 239, 210, 1, 111, 174, 118, 117, 10, 250,
            231, 238, 148, 22, 70, 188, 185,
        ];
        assert(bytes@ =~= Self::default_bytes());
        Self::from_bytes(&bytes)
    }

    /// The encoding of the address that [`Address::default`] reads.
    pub open spec fn default_bytes() -> Seq<u8> {
        seq![
            143u8, 243, 56, 105, 113, 203, 100, 184, 231, 120, 153, 8, 221, 142, 189, 125, 233, 42,
            104, 229, 134, 163, 77, 184, 254, 169, 153, 239, 210, 1, 111, 174, 118, 117, 10, 250,
            231, 238, 148, 22, 70, 188, 185,
        ]
    }
}

/// A full viewing key: with a note of its own it makes a spend.
///
/// It holds its encoding, and beside it what orchard read from that
/// encoding: only `decode_full_viewing_key` makes one.
pub struct FullViewingKey {
    bytes: [u8; 96],
    pub(crate) inner: OrchardFullViewingKey,
}

impl View for FullViewingKey {
    type V = Seq<u8>;

    closed spec fn view(&self) -> Seq<u8> {
        self.bytes@
    }
}

impl FullViewingKey {
    #[verifier::type_invariant]
    spec fn decodes(self) -> bool {
        full_viewing_key_decodes(self.bytes@)
    }

    /// What [`FullViewingKey::from_bytes`] makes of a buffer: the key it
    /// holds, if it holds one.
    pub open spec fn decode(bytes: Seq<u8>) -> Option<Seq<u8>> {
        if bytes.len() == FULL_VIEWING_KEY_LEN && full_viewing_key_decodes(bytes) {
            Some(bytes)
        } else {
            None
        }
    }

    /// The encoding of a key.
    pub open spec fn encode(key: Seq<u8>) -> Seq<u8> {
        key
    }

    /// Reads a key from its encoding of 96 bytes.
    pub fn from_bytes(bytes: &[u8]) -> (r: Result<FullViewingKey, Error>)
        ensures
            match r {
                Ok(k) => Self::decode(bytes@) == Some(k@),
                Err(e) => e == Error::Decode && Self::decode(bytes@) is None,
            },
    {
        if bytes.len() != FULL_VIEWING_KEY_LEN {
            return Err(Error::Decode);
        }
        let raw: [u8; 96] = take_array(bytes, 0);
        assert(raw@ =~= bytes@);
        match decode_full_viewing_key(&raw) {
            Some(key) => Ok(key),
            None => Err(Error::Decode),
        }
    }

    /// Decoding undoes encoding and encoding undoes decoding: a key that
    /// orchard accepts is read back from its own encoding, a buffer that
    /// holds a key is the encoding of that key, and a buffer of another length
    /// than 96 holds none.
    pub proof fn lemma_round_trip(bytes: Seq<u8>)
        ensures
            bytes.len() == FULL_VIEWING_KEY_LEN && full_viewing_key_decodes(bytes) ==> Self::decode(
                Self::encode(bytes),
            ) == Some(bytes),
            Self::decode(bytes) matches Some(key) ==> Self::encode(key) == bytes,
            bytes.len() != FULL_VIEWING_KEY_LEN ==> Self::decode(bytes) is None,
    {
    }

    /// The encoding of the key.
    pub fn to_bytes(&self) -> (r: [u8; 96])
        ensures
            r@ == Self::encode(self@),
            Self::decode(r@) == Some(self@),
    {
        proof {
            use_type_invariant(self);
        }
        self.bytes
    }
}

} // verus!

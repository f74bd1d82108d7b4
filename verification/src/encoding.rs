//! Widths of the fixed encodings, and the copying of bytes between slices and
//! arrays.

use vstd::prelude::*;

verus! {

/// Bytes in an encoded note.
pub const NOTE_LEN: usize = 115;

/// Bytes in an encoded full viewing key.
pub const FULL_VIEWING_KEY_LEN: usize = 96;

/// Bytes in a raw payment address.
pub const ADDRESS_LEN: usize = 43;

/// Bytes in an anchor.
pub const ANCHOR_LEN: usize = 32;

/// Bytes in an outgoing viewing key.
pub const OUTGOING_VIEWING_KEY_LEN: usize = 32;

/// Bytes in a memo.
pub const MEMO_LEN: usize = 512;

/// Bytes in the randomizer of an action's signing key.
pub const RANDOMIZER_LEN: usize = 32;

/// Bytes in a signature.
pub const SIGNATURE_LEN: usize = 64;

/// Bytes in the digest that binds a bundle to its transaction.
pub const SIGHASH_LEN: usize = 32;

/// Levels of the note commitment tree, and so siblings in a Merkle path.
pub const TREE_DEPTH: usize = 32;

/// The modulus of the base field of the Pallas curve in 32 bytes, least
/// significant byte first.
pub open spec fn base_modulus() -> Seq<u8> {
    seq![
        0x01u8, 0x00, 0x00, 0x00, 0xed, 0x30, 0x2d, 0x99, 0x1b, 0xf9, 0x4c, 0x09, 0xfc, 0x98, 0x46,
        0x22, 0x00, 0x00, 0x00, 0x00, 0x00, 0x00, 0x00, 0x00, 0x00, 0x00, 0x00, 0x00, 0x00, 0x00,
        0x00, 0x40,
    ]
}

/// Whether the lowest `n` bytes of `a`, read as a number with the least
/// significant byte first, are below the lowest `n` bytes of `b`.
pub open spec fn below(a: Seq<u8>, b: Seq<u8>, n: int) -> bool
    decreases n,
{
    if n <= 0 {
        false
    } else if a[n - 1] != b[n - 1] {
        a[n - 1] < b[n - 1]
    } else {
        below(a, b, n - 1)
    }
}

/// Whether the bytes are the encoding of an element of the base field of the
/// Pallas curve: 32 bytes that stand for a number below the modulus.
pub open spec fn is_base_element(bytes: Seq<u8>) -> bool {
    bytes.len() == 32 && below(bytes, base_modulus(), 32)
}

/// The most significant byte decides wherever it is not that of the modulus.
pub proof fn lemma_top_byte_decides(bytes: Seq<u8>)
    requires
        bytes.len() == 32,
    ensures
        bytes[31] < 0x40 ==> is_base_element(bytes),
        bytes[31] > 0x40 ==> !is_base_element(bytes),
{
    assert(base_modulus()[31] == 0x40);
}

/// The `N` bytes of `src` that begin at `start`.
pub fn take_array<const N: usize>(src: &[u8], start: usize) -> (out: [u8; N])
    requires
        start + N <= src@.len(),
    ensures
        out@ == src@.subrange(start as int, start + N),
{
    let len = src.len();
    let mut out = [0u8; N];
    let mut i: usize = 0;
    while i < N
        invariant
            i <= N,
            len == src@.len(),
            start + N <= len,
            out@.len() == N,
            forall|j: int| 0 <= j < i ==> out@[j] == src@[start + j],
        decreases N - i,
    {
        out[i] = src[start + i];
        i += 1;
    }
    assert(out@ =~= src@.subrange(start as int, start + N));
    out
}

/// Writes `src` into `out` from `start` on.
pub fn put_slice<const N: usize>(out: &mut [u8; N], start: usize, src: &[u8])
    requires
        start + src@.len() <= N,
    ensures
        final(out)@ == old(out)@.subrange(0, start as int) + src@ + old(out)@.subrange(
            start + src@.len(),
            N as int,
        ),
{
    let n = src.len();
    let mut i: usize = 0;
    while i < n
        invariant
            i <= n,
            n == src@.len(),
            start + n <= N,
            out@.len() == N,
            forall|j: int| 0 <= j < start ==> out@[j] == old(out)@[j],
            forall|j: int| 0 <= j < i ==> out@[start + j] == src@[j],
            forall|j: int| start + i <= j < N ==> out@[j] == old(out)@[j],
        decreases n - i,
    {
        out[start + i] = src[i];
        i += 1;
    }
    assert(out@ =~= old(out)@.subrange(0, start as int) + src@ + old(out)@.subrange(
        start + src@.len(),
        N as int,
    ));
}

/// Whether two byte strings of one length hold the same bytes.
pub fn same_bytes<const N: usize>(a: &[u8; N], b: &[u8; N]) -> (r: bool)
    ensures
        r == (a@ == b@),
{
    let mut i: usize = 0;
    while i < N
        invariant
            i <= N,
            a@.len() == N,
            b@.len() == N,
            forall|j: int| 0 <= j < i ==> a@[j] == b@[j],
        decreases N - i,
    {
        if a[i] != b[i] {
            return false;
        }
        i += 1;
    }
    assert(a@ =~= b@);
    true
}

} // verus!

//! A privacy-preserving value-transfer pool: depositors lock a fixed
//! denomination behind a hidden commitment held in an incremental Merkle
//! accumulator; withdrawers later present a proof bound to a historical root
//! and a fresh nullifier, and receive the denomination at an address
//! unlinkable to the deposit.

use vstd::prelude::*;

pub mod decoy;
pub mod errors;
pub mod gate;
pub mod hashes;
pub mod laws;
pub mod merkle;
pub mod pool;
pub mod private_tx;
pub mod registry;
pub mod relay;
pub mod stealth;
pub mod subscription;

verus! {

/// The all-zero 32-byte word: the empty leaf, and the root value that is
/// never accepted as known.
pub open spec fn zeros32() -> Seq<u8> {
    Seq::new(32, |i: int| 0u8)
}

/// Compares two 32-byte words for equality.
pub fn bytes32_eq(a: &[u8; 32], b: &[u8; 32]) -> (r: bool)
    ensures
        r == (a@ == b@),
{
    let mut i: usize = 0;
    while i < 32
        invariant
            i <= 32,
            forall|j: int| 0 <= j < i ==> a@[j] == b@[j],
        decreases 32 - i,
    {
        if a[i] != b[i] {
            return false;
        }
        i += 1;
    }
    proof {
        assert(a@ =~= b@);
    }
    true
}

/// Saturating 64-bit addition of two non-negative quantities.
pub open spec fn sat_add64(a: int, b: int) -> u64 {
    if a + b <= u64::MAX {
        (a + b) as u64
    } else {
        u64::MAX
    }
}

/// True iff every byte of the sequence is zero.
pub open spec fn all_zero(s: Seq<u8>) -> bool {
    forall|j: int| 0 <= j < s.len() ==> s[j] == 0u8
}

/// True iff every byte of the slice is zero.
pub fn slice_all_zero(data: &[u8]) -> (r: bool)
    ensures
        r == all_zero(data@),
{
    let mut i: usize = 0;
    while i < data.len()
        invariant
            i <= data@.len(),
            forall|j: int| 0 <= j < i ==> data@[j] == 0u8,
        decreases data@.len() - i,
    {
        if data[i] != 0 {
            return false;
        }
        i += 1;
    }
    true
}

/// True iff the 32-byte word is all zero, i.e. equals `zeros32`.
pub fn bytes32_is_zero(a: &[u8; 32]) -> (r: bool)
    ensures
        r == (a@ == zeros32()),
{
    let r = slice_all_zero(a.as_slice());
    proof {
        if r {
            assert(a@ =~= zeros32());
        } else {
            assert(a@ != zeros32());
        }
    }
    r
}

/// Appends the bytes of `src` to `dst`.
pub fn extend_bytes(dst: &mut Vec<u8>, src: &[u8])
    ensures
        final(dst)@ == old(dst)@ + src@,
{
    let mut i: usize = 0;
    while i < src.len()
        invariant
            i <= src@.len(),
            dst@ == old(dst)@ + src@.take(i as int),
        decreases src@.len() - i,
    {
        dst.push(src[i]);
        proof {
            assert(dst@ =~= old(dst)@ + src@.take(i + 1));
        }
        i += 1;
    }
    proof {
        assert(src@.take(src@.len() as int) =~= src@);
    }
}

} // verus!

//! Field elements and digests as plain machine words.

use vstd::prelude::*;

verus! {

/// Order of the prime field the proof engine works over: `2^64 - 2^32 + 1`.
pub const ORDER: u64 = 0xFFFF_FFFF_0000_0001;

/// Number of field elements in a digest.
pub const DIGEST_LEN: usize = 4;

/// Four field elements: a key, a tree node, a root or a nullifier.
pub type Digest = [u64; 4];

/// Whether `x` is the canonical representative of a field element.
pub open spec fn is_canonical(x: u64) -> bool {
    x < ORDER
}

/// The field element that stands for a small non-negative integer.
pub fn from_canonical_usize(n: usize) -> (x: u64)
    requires
        n < ORDER,
    ensures
        x == n,
        is_canonical(x),
{
    n as u64
}

/// Element-wise comparison of two digests.
pub fn digest_eq(a: &Digest, b: &Digest) -> (same: bool)
    ensures
        same == (a@ == b@),
{
    let same = a[0] == b[0] && a[1] == b[1] && a[2] == b[2] && a[3] == b[3];
    assert(same == (a@ =~= b@));
    same
}

/// The views of a run of digests, one sequence of four elements each.
pub open spec fn digests_view(v: Seq<Digest>) -> Seq<Seq<u64>> {
    Seq::new(v.len(), |i: int| v[i]@)
}

} // verus!

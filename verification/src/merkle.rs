//! The mathematics of a binary Merkle tree over a power-of-two run of leaves.

use vstd::prelude::*;
use crate::field::{Digest, digests_view};
use crate::hash::{compress, hash_fn, is_hash};

verus! {

/// A hash as a mathematical function.
pub type HashFn = spec_fn(Seq<u64>) -> Seq<u64>;

/// Whether `n` is a power of two.
pub open spec fn is_pow2(n: nat) -> bool
    decreases n,
{
    n == 1 || (n >= 2 && n % 2 == 0 && is_pow2(n / 2))
}

/// The number of times `n` can be halved before it reaches one.
pub open spec fn log2(n: nat) -> nat
    decreases n,
{
    if n <= 1 {
        0
    } else {
        1 + log2(n / 2)
    }
}

/// Two to the power `k`.
pub open spec fn pow2(k: nat) -> nat
    decreases k,
{
    if k == 0 {
        1
    } else {
        2 * pow2((k - 1) as nat)
    }
}

/// The layer above `layer`: each node is the hash of a pair of neighbours.
pub open spec fn next_layer(hs: HashFn, layer: Seq<Seq<u64>>) -> Seq<Seq<u64>> {
    Seq::new(layer.len() / 2, |j: int| hs(layer[2 * j] + layer[2 * j + 1]))
}

/// The single node that remains when `layer` is compressed pairwise until one
/// node is left.
pub open spec fn merkle_root(hs: HashFn, layer: Seq<Seq<u64>>) -> Seq<u64>
    decreases layer.len(),
{
    if layer.len() <= 1 {
        layer[0]
    } else {
        merkle_root(hs, next_layer(hs, layer))
    }
}

/// The position of the node that shares a parent with the node at `index`.
pub open spec fn sibling(index: nat) -> nat {
    if index % 2 == 0 {
        index + 1
    } else {
        (index - 1) as nat
    }
}

/// The siblings met on the way from the leaf at `index` up to the root,
/// lowest first.
pub open spec fn merkle_path(hs: HashFn, layer: Seq<Seq<u64>>, index: nat) -> Seq<Seq<u64>>
    decreases layer.len(),
{
    if layer.len() <= 1 {
        Seq::empty()
    } else {
        seq![layer[sibling(index) as int]] + merkle_path(hs, next_layer(hs, layer), index / 2)
    }
}

/// The node reached from `node` at position `index` by hashing it with each
/// sibling of `path` in turn; the low bit of the position says on which side
/// the node stands.
pub open spec fn climb(hs: HashFn, node: Seq<u64>, index: nat, path: Seq<Seq<u64>>) -> Seq<u64>
    decreases path.len(),
{
    if path.len() == 0 {
        node
    } else {
        let parent = if index % 2 == 0 {
            hs(node + path[0])
        } else {
            hs(path[0] + node)
        };
        climb(hs, parent, index / 2, path.drop_first())
    }
}

/// Whether every output of the hash is a digest of four elements.
pub open spec fn gives_digests(hs: HashFn) -> bool {
    forall|x: Seq<u64>| (#[trigger] hs(x)).len() == 4
}

/// Whether every node of a layer is a digest of four elements.
pub open spec fn all_digests(layer: Seq<Seq<u64>>) -> bool {
    forall|i: int| 0 <= i < layer.len() ==> (#[trigger] layer[i]).len() == 4
}

/// The root and every sibling on a path are digests where the leaves are.
pub proof fn lemma_nodes_are_digests(hs: HashFn, layer: Seq<Seq<u64>>, index: nat)
    requires
        is_pow2(layer.len()),
        index < layer.len(),
        gives_digests(hs),
        all_digests(layer),
    ensures
        merkle_root(hs, layer).len() == 4,
        all_digests(merkle_path(hs, layer, index)),
    decreases layer.len(),
{
    if layer.len() > 1 {
        lemma_pow2_halves(layer.len());
        let up = next_layer(hs, layer);
        lemma_nodes_are_digests(hs, up, index / 2);
        let path = merkle_path(hs, layer, index);
        let rest = merkle_path(hs, up, index / 2);
        assert forall|i: int| 0 <= i < path.len() implies (#[trigger] path[i]).len() == 4 by {
            if i > 0 {
                assert(path[i] == rest[i - 1]);
            }
        }
    }
}

/// A power of two is positive, and halving one that is above one gives a
/// power of two.
pub proof fn lemma_pow2_halves(n: nat)
    requires
        is_pow2(n),
    ensures
        n >= 1,
        n >= 2 ==> n % 2 == 0 && is_pow2(n / 2),
        n == pow2(log2(n)),
    decreases n,
{
    if n >= 2 {
        lemma_pow2_halves(n / 2);
    }
}

/// A path has one sibling for each level of the tree.
pub proof fn lemma_path_len(hs: HashFn, layer: Seq<Seq<u64>>, index: nat)
    requires
        is_pow2(layer.len()),
    ensures
        merkle_path(hs, layer, index).len() == log2(layer.len()),
    decreases layer.len(),
{
    if layer.len() > 1 {
        lemma_pow2_halves(layer.len());
        lemma_path_len(hs, next_layer(hs, layer), index / 2);
    }
}

/// Inclusion: climbing from any leaf along its own path ends at the root.
pub proof fn lemma_climb_own_path(hs: HashFn, layer: Seq<Seq<u64>>, index: nat)
    requires
        is_pow2(layer.len()),
        index < layer.len(),
    ensures
        climb(hs, layer[index as int], index, merkle_path(hs, layer, index)) == merkle_root(
            hs,
            layer,
        ),
    decreases layer.len(),
{
    if layer.len() > 1 {
        lemma_pow2_halves(layer.len());
        let up = next_layer(hs, layer);
        let path = merkle_path(hs, layer, index);
        let rest = merkle_path(hs, up, index / 2);
        assert(path.drop_first() =~= rest);
        assert(path[0] == layer[sibling(index) as int]);
        let j = (index / 2) as int;
        assert(up[j] == hs(layer[2 * j] + layer[2 * j + 1]));
        lemma_climb_own_path(hs, up, index / 2);
    }
}

/// The logarithm of a number below `2^(k + 1)` is at most `k`.
pub proof fn lemma_log2_below(n: nat, k: nat)
    requires
        n < pow2(k + 1),
    ensures
        log2(n) <= k,
    decreases k,
{
    if n > 1 {
        assert(pow2(k + 1) == 2 * pow2(k));
        if k == 0 {
            assert(pow2(0) == 1);
        } else {
            lemma_log2_below(n / 2, (k - 1) as nat);
        }
    }
}

/// A tree whose leaves can be counted in a machine word has at most 63
/// levels.
pub proof fn lemma_log2_of_word(n: nat)
    requires
        n <= usize::MAX,
    ensures
        log2(n) <= 63,
{
    lemma_pow2_is_vstd(64);
    vstd::arithmetic::power2::lemma2_to64();
    lemma_log2_below(n, 63);
}

/// `pow2` agrees with the power of two of the standard library of proofs.
pub proof fn lemma_pow2_is_vstd(k: nat)
    ensures
        pow2(k) == vstd::arithmetic::power2::pow2(k),
    decreases k,
{
    if k > 0 {
        vstd::arithmetic::power2::lemma_pow2_unfold(k);
        lemma_pow2_is_vstd((k - 1) as nat);
    } else {
        vstd::arithmetic::power2::lemma2_to64();
    }
}

/// Recomputes the root from a leaf, its position and its path.
pub fn recompute_root<H: Fn(Vec<u64>) -> Digest>(
    h: &H,
    leaf: &Digest,
    index: usize,
    path: &Vec<Digest>,
) -> (top: Digest)
    requires
        is_hash(h),
    ensures
        top@ == climb(hash_fn(h), leaf@, index as nat, digests_view(path@)),
{
    let ghost hs = hash_fn(h);
    let ghost full = digests_view(path@);
    let mut node: Digest = *leaf;
    let mut at: usize = index;
    let mut k: usize = 0;
    assert(full.skip(0) =~= full);
    while k < path.len()
        invariant
            is_hash(h),
            hs == hash_fn(h),
            full == digests_view(path@),
            k <= path.len(),
            climb(hs, leaf@, index as nat, full) == climb(hs, node@, at as nat, full.skip(k as int)),
        decreases path.len() - k,
    {
        let ghost rest = full.skip(k as int);
        assert(rest[0] == path[k as int]@);
        assert(rest.drop_first() =~= full.skip(k + 1));
        node = if at % 2 == 0 {
            compress(h, &node, &path[k])
        } else {
            compress(h, &path[k], &node)
        };
        at = at / 2;
        k = k + 1;
    }
    node
}

} // verus!

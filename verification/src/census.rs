//! The census: a Merkle tree over the voters' public keys.
//!
//! A tree is built once from the closed list of public keys and is read-only
//! afterwards. The position of a key in the list is the voter's index.

use vstd::prelude::*;
use crate::field::{Digest, digests_view};
use crate::hash::{compress, hash_fn, is_hash};
use crate::merkle::{
    all_digests, gives_digests, is_pow2, lemma_nodes_are_digests, lemma_path_len,
    lemma_pow2_halves, log2, merkle_path, merkle_root, next_layer, pow2, sibling, HashFn,
};

verus! {

/// Why a census tree could not be built or read.
#[derive(Debug, Clone, Copy, PartialEq, Eq)]
pub enum CensusError {
    /// The number of public keys is not a power of two.
    InvalidCensusSize,
    /// The index names no leaf of the tree.
    IndexOutOfRange,
}

/// A Merkle tree over public keys, with the hash it was built with.
pub struct CensusTree<H: Fn(Vec<u64>) -> Digest> {
    hash: H,
    layers: Vec<Vec<Digest>>,
}

/// Layer `k + 1` is the pairwise compression of layer `k`.
pub open spec fn linked(hs: HashFn, layers: Seq<Vec<Digest>>, k: int) -> bool {
    &&& layers[k].len() == 2 * layers[k + 1].len()
    &&& digests_view(layers[k + 1]@) == next_layer(hs, digests_view(layers[k]@))
}

/// The layers of a tree, leaves first, each linked to the next, ending in a
/// single node.
pub open spec fn layers_wf(hs: HashFn, layers: Seq<Vec<Digest>>) -> bool {
    &&& layers.len() >= 1
    &&& layers[layers.len() - 1].len() == 1
    &&& forall|k: int| 0 <= k < layers.len() - 1 ==> #[trigger] linked(hs, layers, k)
}

/// In well-formed layers, layer `k` has a power-of-two width, stands
/// `log2(width)` below the top, and compresses to the top node.
pub proof fn lemma_layers(hs: HashFn, layers: Seq<Vec<Digest>>, k: int)
    requires
        layers_wf(hs, layers),
        0 <= k < layers.len(),
    ensures
        is_pow2(layers[k].len() as nat),
        log2(layers[k].len() as nat) == layers.len() - 1 - k,
        merkle_root(hs, digests_view(layers[k]@)) == layers[layers.len() - 1][0]@,
    decreases layers.len() - k,
{
    if k < layers.len() - 1 {
        assert(linked(hs, layers, k));
        lemma_layers(hs, layers, k + 1);
        lemma_pow2_halves(layers[k + 1].len() as nat);
        assert(layers[k].len() / 2 == layers[k + 1].len());
    }
}

/// Whether `n` is a power of two.
pub fn is_power_of_two(n: usize) -> (r: bool)
    ensures
        r == is_pow2(n as nat),
{
    if n == 0 {
        return false;
    }
    let mut m: usize = n;
    while m % 2 == 0
        invariant
            m >= 1,
            is_pow2(m as nat) == is_pow2(n as nat),
        decreases m,
    {
        m = m / 2;
    }
    m == 1
}

/// Compresses a layer of even width into the layer above it.
pub fn compress_layer<H: Fn(Vec<u64>) -> Digest>(h: &H, layer: &Vec<Digest>) -> (up: Vec<Digest>)
    requires
        is_hash(h),
        layer.len() % 2 == 0,
    ensures
        up.len() * 2 == layer.len(),
        digests_view(up@) == next_layer(hash_fn(h), digests_view(layer@)),
{
    let half: usize = layer.len() / 2;
    let mut up: Vec<Digest> = Vec::new();
    let mut j: usize = 0;
    while j < half
        invariant
            is_hash(h),
            half * 2 == layer.len(),
            j <= half,
            up.len() == j,
            forall|i: int|
                0 <= i < j ==> (#[trigger] up[i])@ == hash_fn(h)(layer[2 * i]@ + layer[2 * i + 1]@),
        decreases half - j,
    {
        let node = compress(h, &layer[2 * j], &layer[2 * j + 1]);
        up.push(node);
        j = j + 1;
    }
    assert(digests_view(up@) =~= next_layer(hash_fn(h), digests_view(layer@)));
    up
}

impl<H: Fn(Vec<u64>) -> Digest> CensusTree<H> {
    /// The hash of this tree as a mathematical function.
    pub closed spec fn hash_fn(&self) -> HashFn {
        hash_fn(&self.hash)
    }

    /// The public keys of the census, in the order they were given.
    pub closed spec fn leaves(&self) -> Seq<Seq<u64>> {
        digests_view(self.layers[0]@)
    }

    /// The tree's invariant: its hash is a hash, and its layers are linked
    /// from the leaves up to a single root.
    #[verifier::type_invariant]
    pub closed spec fn wf(&self) -> bool {
        &&& is_hash(&self.hash)
        &&& layers_wf(hash_fn(&self.hash), self.layers@)
    }

    /// The root commitment of the census.
    pub open spec fn root_digest(&self) -> Seq<u64> {
        merkle_root(self.hash_fn(), self.leaves())
    }

    /// The number of levels between a leaf and the root.
    pub open spec fn height(&self) -> nat {
        log2(self.leaves().len())
    }

    /// A well-formed tree has a power-of-two number of leaves.
    pub proof fn lemma_leaf_count(&self)
        requires
            self.wf(),
        ensures
            is_pow2(self.leaves().len()),
            self.leaves().len() <= usize::MAX,
    {
        lemma_layers(hash_fn(&self.hash), self.layers@, 0);
    }

    /// The hash of a well-formed tree gives digests, and so do its leaves,
    /// its root and its paths.
    pub proof fn lemma_digest_sizes(&self, index: nat)
        requires
            self.wf(),
            index < self.leaves().len(),
        ensures
            gives_digests(self.hash_fn()),
            all_digests(self.leaves()),
            self.root_digest().len() == 4,
            all_digests(merkle_path(self.hash_fn(), self.leaves(), index)),
            merkle_path(self.hash_fn(), self.leaves(), index).len() == self.height(),
            index < pow2(self.height()),
    {
        self.lemma_leaf_count();
        assert(gives_digests(self.hash_fn()));
        assert(all_digests(self.leaves()));
        lemma_nodes_are_digests(self.hash_fn(), self.leaves(), index);
        lemma_path_len(self.hash_fn(), self.leaves(), index);
        lemma_pow2_halves(self.leaves().len());
    }

    /// Builds the tree over `leaves`, whose number must be a power of two.
    pub fn new(leaves: Vec<Digest>, hash: H) -> (r: Result<Self, CensusError>)
        requires
            is_hash(&hash),
        ensures
            match r {
                Ok(tree) => {
                    &&& is_pow2(leaves.len() as nat)
                    &&& tree.wf()
                    &&& tree.leaves() == digests_view(leaves@)
                    &&& tree.hash_fn() == hash_fn(&hash)
                },
                Err(e) => !is_pow2(leaves.len() as nat) && e == CensusError::InvalidCensusSize,
            },
    {
        if !is_power_of_two(leaves.len()) {
            return Err(CensusError::InvalidCensusSize);
        }
        let ghost given = leaves@;
        let mut width: usize = leaves.len();
        let mut layers: Vec<Vec<Digest>> = Vec::new();
        layers.push(leaves);
        while width > 1
            invariant
                is_hash(&hash),
                layers.len() >= 1,
                layers[0]@ == given,
                width == layers[layers.len() - 1].len(),
                is_pow2(width as nat),
                forall|k: int|
                    0 <= k < layers.len() - 1 ==> #[trigger] linked(hash_fn(&hash), layers@, k),
            decreases width,
        {
            let ghost before = layers@;
            let up = compress_layer(&hash, &layers[layers.len() - 1]);
            width = up.len();
            layers.push(up);
            proof {
                assert forall|k: int| 0 <= k < layers.len() - 1 implies #[trigger] linked(
                    hash_fn(&hash),
                    layers@,
                    k,
                ) by {
                    if k < before.len() - 1 {
                        assert(linked(hash_fn(&hash), before, k));
                    }
                }
            }
        }
        Ok(CensusTree { hash, layers })
    }

    /// The hash this tree was built with.
    pub fn hasher(&self) -> (h: &H)
        ensures
            is_hash(h),
            hash_fn(h) == self.hash_fn(),
    {
        proof {
            use_type_invariant(self);
        }
        &self.hash
    }

    /// The number of leaves.
    pub fn leaf_count(&self) -> (n: usize)
        ensures
            n == self.leaves().len(),
            is_pow2(n as nat),
    {
        proof {
            use_type_invariant(self);
            lemma_layers(hash_fn(&self.hash), self.layers@, 0);
        }
        self.layers[0].len()
    }

    /// The height of the tree: the base-two logarithm of the number of leaves.
    pub fn tree_height(&self) -> (h: usize)
        ensures
            h == self.height(),
    {
        proof {
            use_type_invariant(self);
            lemma_layers(hash_fn(&self.hash), self.layers@, 0);
        }
        self.layers.len() - 1
    }

    /// The root commitment.
    pub fn root(&self) -> (d: Digest)
        ensures
            d@ == self.root_digest(),
    {
        proof {
            use_type_invariant(self);
            lemma_layers(hash_fn(&self.hash), self.layers@, 0);
        }
        self.layers[self.layers.len() - 1][0]
    }

    /// The sibling hashes from the leaf at `index` up to the root.
    pub fn path_for(&self, index: usize) -> (r: Result<Vec<Digest>, CensusError>)
        ensures
            match r {
                Ok(path) => {
                    &&& index < self.leaves().len()
                    &&& digests_view(path@) == merkle_path(
                        self.hash_fn(),
                        self.leaves(),
                        index as nat,
                    )
                    &&& path.len() == self.height()
                },
                Err(e) => index >= self.leaves().len() && e == CensusError::IndexOutOfRange,
            },
    {
        proof {
            use_type_invariant(self);
            lemma_layers(hash_fn(&self.hash), self.layers@, 0);
        }
        if index >= self.layers[0].len() {
            return Err(CensusError::IndexOutOfRange);
        }
        let ghost hs = hash_fn(&self.hash);
        let top: usize = self.layers.len() - 1;
        let mut path: Vec<Digest> = Vec::new();
        let mut at: usize = index;
        let mut k: usize = 0;
        while k < top
            invariant
                layers_wf(hs, self.layers@),
                top == self.layers.len() - 1,
                k <= top,
                path.len() == k,
                at < self.layers[k as int].len(),
                digests_view(path@) + merkle_path(hs, digests_view(self.layers[k as int]@), at as nat)
                    == merkle_path(hs, digests_view(self.layers[0]@), index as nat),
            decreases top - k,
        {
            proof {
                assert(linked(hs, self.layers@, k as int));
                lemma_layers(hs, self.layers@, k as int + 1);
                lemma_pow2_halves(self.layers[k as int + 1].len() as nat);
            }
            let side: usize = if at % 2 == 0 {
                at + 1
            } else {
                at - 1
            };
            let ghost before = digests_view(path@);
            let ghost layer = digests_view(self.layers[k as int]@);
            path.push(self.layers[k][side]);
            proof {
                assert(side == sibling(at as nat));
                assert(digests_view(path@) =~= before + seq![layer[side as int]]);
                assert(merkle_path(hs, layer, at as nat) == seq![layer[side as int]] + merkle_path(
                    hs,
                    next_layer(hs, layer),
                    (at / 2) as nat,
                ));
                assert(digests_view(path@) + merkle_path(
                    hs,
                    next_layer(hs, layer),
                    (at / 2) as nat,
                ) =~= before + merkle_path(hs, layer, at as nat));
            }
            at = at / 2;
            k = k + 1;
        }
        proof {
            assert(merkle_path(hs, digests_view(self.layers[k as int]@), at as nat) =~= Seq::empty());
            assert(digests_view(path@) =~= merkle_path(
                hs,
                digests_view(self.layers[0]@),
                index as nat,
            ));
        }
        Ok(path)
    }
}

} // verus!

//! The commitment hash as a capability, and the two derivations built on it.
//!
//! The hash itself is supplied by the caller as a function from a sequence of
//! field elements to a digest. Contracts speak of it through [`digest_of`],
//! which names the one digest such a function returns for an input.

use vstd::prelude::*;
use crate::field::{Digest, from_canonical_usize, ORDER};

verus! {

/// A commitment hash accepts every input and answers one input, taken by its
/// elements, with one digest.
pub open spec fn is_hash<H: Fn(Vec<u64>) -> Digest>(h: &H) -> bool {
    &&& forall|v: Vec<u64>| h.requires((v,))
    &&& forall|v1: Vec<u64>, v2: Vec<u64>, d1: Digest, d2: Digest|
        v1@ == v2@ && #[trigger] h.ensures((v1,), d1) && #[trigger] h.ensures((v2,), d2) ==> d1@
            == d2@
}

/// The digest that `h` gives for `input`.
pub open spec fn digest_of<H: Fn(Vec<u64>) -> Digest>(h: &H, input: Seq<u64>) -> Seq<u64> {
    let (v, d) = choose|v: Vec<u64>, d: Digest| v@ == input && #[trigger] h.ensures((v,), d);
    d@
}

/// `h` as a mathematical function on sequences.
pub open spec fn hash_fn<H: Fn(Vec<u64>) -> Digest>(h: &H) -> spec_fn(Seq<u64>) -> Seq<u64> {
    |input: Seq<u64>| digest_of(h, input)
}

/// What is hashed to derive a public key: the secret key, then four zeros.
pub open spec fn public_key_preimage(sk: Seq<u64>) -> Seq<u64> {
    sk + seq![0u64, 0u64, 0u64, 0u64]
}

/// What is hashed to derive a nullifier: the secret key, the two election
/// identifiers, then two zeros.
pub open spec fn nullifier_preimage(sk: Seq<u64>, chain_id: u64, process_id: u64) -> Seq<u64> {
    sk + seq![chain_id, process_id, 0u64, 0u64]
}

/// The public key that belongs to `sk` under the hash `hs`.
pub open spec fn public_key_of(hs: spec_fn(Seq<u64>) -> Seq<u64>, sk: Seq<u64>) -> Seq<u64> {
    hs(public_key_preimage(sk))
}

/// The nullifier of `sk` in the election `(chain_id, process_id)` under `hs`.
pub open spec fn nullifier_of(
    hs: spec_fn(Seq<u64>) -> Seq<u64>,
    sk: Seq<u64>,
    chain_id: u64,
    process_id: u64,
) -> Seq<u64> {
    hs(nullifier_preimage(sk, chain_id, process_id))
}

/// What a hash answered for an input is the digest of that input.
pub proof fn lemma_digest_of_answer<H: Fn(Vec<u64>) -> Digest>(h: &H, input: Vec<u64>, d: Digest)
    requires
        is_hash(h),
        h.ensures((input,), d),
    ensures
        digest_of(h, input@) == d@,
        hash_fn(h)(input@) == d@,
{
}

/// Runs the hash once.
pub fn apply_hash<H: Fn(Vec<u64>) -> Digest>(h: &H, input: Vec<u64>) -> (d: Digest)
    requires
        is_hash(h),
    ensures
        d@ == digest_of(h, input@),
        d@ == hash_fn(h)(input@),
{
    let ghost given = input;
    let d = h(input);
    proof {
        lemma_digest_of_answer(h, given, d);
    }
    d
}

/// Two digests laid end to end.
pub fn concat_digests(left: &Digest, right: &Digest) -> (v: Vec<u64>)
    ensures
        v@ == left@ + right@,
{
    let mut v: Vec<u64> = Vec::new();
    v.push(left[0]);
    v.push(left[1]);
    v.push(left[2]);
    v.push(left[3]);
    v.push(right[0]);
    v.push(right[1]);
    v.push(right[2]);
    v.push(right[3]);
    assert(v@ =~= left@ + right@);
    v
}

/// Compresses two tree nodes into their parent.
pub fn compress<H: Fn(Vec<u64>) -> Digest>(h: &H, left: &Digest, right: &Digest) -> (d: Digest)
    requires
        is_hash(h),
    ensures
        d@ == hash_fn(h)(left@ + right@),
{
    apply_hash(h, concat_digests(left, right))
}

/// Derives the public key of a secret key.
pub fn derive_public_key<H: Fn(Vec<u64>) -> Digest>(h: &H, sk: &Digest) -> (pk: Digest)
    requires
        is_hash(h),
    ensures
        pk@ == public_key_of(hash_fn(h), sk@),
{
    let zeros: Digest = [0, 0, 0, 0];
    assert(zeros@ =~= seq![0u64, 0u64, 0u64, 0u64]);
    apply_hash(h, concat_digests(sk, &zeros))
}

/// Derives the nullifier of a secret key for one election.
pub fn derive_nullifier<H: Fn(Vec<u64>) -> Digest>(
    h: &H,
    sk: &Digest,
    chain_id: usize,
    process_id: usize,
) -> (nullifier: Digest)
    requires
        is_hash(h),
        chain_id < ORDER,
        process_id < ORDER,
    ensures
        nullifier@ == nullifier_of(hash_fn(h), sk@, chain_id as u64, process_id as u64),
{
    let scope: Digest = [from_canonical_usize(chain_id), from_canonical_usize(process_id), 0, 0];
    assert(scope@ =~= seq![chain_id as u64, process_id as u64, 0u64, 0u64]);
    apply_hash(h, concat_digests(sk, &scope))
}

} // verus!

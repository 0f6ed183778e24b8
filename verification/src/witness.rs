//! The values a prover supplies for the wires of a circuit.

use vstd::prelude::*;
use crate::circuit::{HashOutTarget, Target};
use crate::field::Digest;

verus! {

/// The values set so far, in the order in which they were set.
#[derive(Debug)]
pub struct PartialWitness {
    pub target_values: Vec<(Target, u64)>,
}

impl View for PartialWitness {
    type V = Seq<(usize, u64)>;

    open spec fn view(&self) -> Seq<(usize, u64)> {
        self.target_values@
    }
}

/// Four wires paired with the four elements of a digest.
pub open spec fn digest_entries(targets: Seq<usize>, value: Seq<u64>) -> Seq<(usize, u64)> {
    seq![
        (targets[0], value[0]),
        (targets[1], value[1]),
        (targets[2], value[2]),
        (targets[3], value[3]),
    ]
}

/// The first `count` digests of `targets` paired with those of `values`.
pub open spec fn path_entries(targets: Seq<Seq<usize>>, values: Seq<Seq<u64>>, count: nat) -> Seq<
    (usize, u64),
>
    decreases count,
{
    if count == 0 {
        Seq::empty()
    } else {
        path_entries(targets, values, (count - 1) as nat) + digest_entries(
            targets[count - 1],
            values[count - 1],
        )
    }
}

/// Whether the full assignment `values` gives every wire that `witness` sets
/// the value it was set to.
pub open spec fn agrees(witness: Seq<(usize, u64)>, values: Seq<u64>) -> bool {
    forall|i: int|
        0 <= i < witness.len() ==> (#[trigger] witness[i]).0 < values.len() && values[witness[i].0 as int]
            == witness[i].1
}

impl PartialWitness {
    /// A witness that sets nothing.
    pub fn new() -> (w: PartialWitness)
        ensures
            w@ == Seq::<(usize, u64)>::empty(),
    {
        PartialWitness { target_values: Vec::new() }
    }

    /// Sets one wire.
    pub fn set_target(&mut self, target: Target, value: u64)
        ensures
            final(self)@ == old(self)@.push((target, value)),
    {
        self.target_values.push((target, value));
    }

    /// Sets the four wires of a digest.
    pub fn set_hash_target(&mut self, ht: HashOutTarget, value: Digest)
        ensures
            final(self)@ == old(self)@ + digest_entries(ht.elements@, value@),
    {
        self.set_target_arr(&ht.elements, value);
    }

    /// Sets four wires to the four elements of a digest.
    pub fn set_target_arr(&mut self, targets: &[Target; 4], values: Digest)
        ensures
            final(self)@ == old(self)@ + digest_entries(targets@, values@),
    {
        self.target_values.push((targets[0], values[0]));
        self.target_values.push((targets[1], values[1]));
        self.target_values.push((targets[2], values[2]));
        self.target_values.push((targets[3], values[3]));
        assert(self@ =~= old(self)@ + digest_entries(targets@, values@));
    }
}

} // verus!

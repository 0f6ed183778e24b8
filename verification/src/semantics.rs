//! What it means for values on the wires to satisfy a circuit.

use vstd::prelude::*;
use crate::circuit::{CircuitView, GateView};
use crate::merkle::{climb, pow2, HashFn};

verus! {

/// The values that the assignment `a` gives to a run of wires.
pub open spec fn values_at(a: Seq<u64>, wires: Seq<usize>) -> Seq<u64> {
    Seq::new(wires.len(), |i: int| a[wires[i] as int])
}

/// The values that `a` gives to each group of a run of groups of wires.
pub open spec fn digests_at(a: Seq<u64>, groups: Seq<Seq<usize>>) -> Seq<Seq<u64>> {
    Seq::new(groups.len(), |i: int| values_at(a, groups[i]))
}

/// Whether every value is zero or one.
pub open spec fn all_bits(bits: Seq<u64>) -> bool {
    forall|i: int| 0 <= i < bits.len() ==> #[trigger] bits[i] == 0 || bits[i] == 1
}

/// The number spelled by bits, lowest first.
pub open spec fn le_value(bits: Seq<u64>) -> nat
    decreases bits.len(),
{
    if bits.len() == 0 {
        0
    } else {
        bits[0] as nat + 2 * le_value(bits.drop_first())
    }
}

/// Bit `j` of `x`.
pub open spec fn bit_of(x: nat, j: nat) -> u64 {
    if (x / pow2(j)) % 2 == 0 {
        0
    } else {
        1
    }
}

/// The lowest `count` bits of `x`, lowest first.
pub open spec fn le_bits(x: nat, count: nat) -> Seq<u64> {
    Seq::new(count, |j: int| bit_of(x, j as nat))
}

/// The digest of a leaf: its data as it stands, filled up with zeros, where
/// it fits in a digest, and its hash otherwise.
pub open spec fn leaf_digest(hs: HashFn, data: Seq<u64>) -> Seq<u64> {
    if data.len() <= 4 {
        data + Seq::new((4 - data.len()) as nat, |i: int| 0u64)
    } else {
        hs(data)
    }
}

/// Whether the assignment `a` meets the constraint of one gate. A split
/// into no bits constrains nothing.
pub open spec fn gate_holds(hs: HashFn, gate: GateView, a: Seq<u64>) -> bool {
    match gate {
        GateView::Constant { target, value } => a[target as int] == value,
        GateView::SplitLe { integer, bits } => bits.len() > 0 ==> {
            &&& all_bits(values_at(a, bits))
            &&& a[integer as int] == le_value(values_at(a, bits))
        },
        GateView::Hash { inputs, output } => values_at(a, output) == hs(values_at(a, inputs)),
        GateView::MerkleProof { leaf_data, index_bits, root, siblings } => {
            &&& index_bits.len() == siblings.len()
            &&& all_bits(values_at(a, index_bits))
            &&& climb(
                hs,
                leaf_digest(hs, values_at(a, leaf_data)),
                le_value(values_at(a, index_bits)),
                digests_at(a, siblings),
            ) == values_at(a, root)
        },
        GateView::Connect { left, right } => a[left as int] == a[right as int],
    }
}

/// Whether `a` gives a value to every wire of the circuit and meets the
/// constraint of every gate.
pub open spec fn satisfies(hs: HashFn, circuit: CircuitView, a: Seq<u64>) -> bool {
    &&& a.len() == circuit.num_targets
    &&& forall|i: int| 0 <= i < circuit.gates.len() ==> gate_holds(hs, #[trigger] circuit.gates[i], a)
}

/// The public values of an assignment.
pub open spec fn public_values(circuit: CircuitView, a: Seq<u64>) -> Seq<u64> {
    values_at(a, circuit.public_inputs)
}

/// Bits spell a number below two to the number of bits.
pub proof fn lemma_le_value_bound(bits: Seq<u64>)
    requires
        all_bits(bits),
    ensures
        le_value(bits) < pow2(bits.len()),
    decreases bits.len(),
{
    if bits.len() > 0 {
        let rest = bits.drop_first();
        assert forall|i: int| 0 <= i < rest.len() implies #[trigger] rest[i] == 0 || rest[i] == 1 by {
            assert(rest[i] == bits[i + 1]);
        }
        lemma_le_value_bound(rest);
        assert(bits[0] == 0 || bits[0] == 1);
    }
}

/// The lowest `count` bits of a number below `2^count` spell that number.
pub proof fn lemma_le_bits_spell(x: nat, count: nat)
    requires
        x < pow2(count),
    ensures
        all_bits(le_bits(x, count)),
        le_value(le_bits(x, count)) == x,
    decreases count,
{
    if count > 0 {
        let bits = le_bits(x, count);
        let rest = bits.drop_first();
        let half = x / 2;
        assert(pow2(0) == 1);
        assert(rest =~= le_bits(half, (count - 1) as nat)) by {
            assert forall|j: int| 0 <= j < rest.len() implies rest[j] == le_bits(
                half,
                (count - 1) as nat,
            )[j] by {
                assert(rest[j] == bit_of(x, (j + 1) as nat));
                assert(pow2((j + 1) as nat) == 2 * pow2(j as nat));
                lemma_pow2_positive(j as nat);
                vstd::arithmetic::div_mod::lemma_div_denominator(
                    x as int,
                    2,
                    pow2(j as nat) as int,
                );
            }
        }
        lemma_le_bits_spell(half, (count - 1) as nat);
        assert(bits[0] == bit_of(x, 0));
    }
}

/// Two to any power is positive.
pub proof fn lemma_pow2_positive(k: nat)
    ensures
        pow2(k) >= 1,
    decreases k,
{
    if k > 0 {
        lemma_pow2_positive((k - 1) as nat);
    }
}

} // verus!

//! What a membership proof attests, and that the membership circuit says
//! exactly that.

use vstd::prelude::*;
use crate::circuit::wire_run;
use crate::hash::{nullifier_of, nullifier_preimage, public_key_of, public_key_preimage};
use crate::innerproof::{
    membership_gates, membership_layout, membership_public_wires, membership_wires,
    public_inputs_of, standalone_membership_circuit, witness_for, MembershipValues,
};
use crate::merkle::{climb, gives_digests, pow2, HashFn};
use crate::semantics::{
    bit_of, digests_at, gate_holds, le_bits, leaf_digest, lemma_le_bits_spell, lemma_le_value_bound,
    public_values, satisfies, values_at,
};
use crate::witness::{agrees, digest_entries, path_entries};

verus! {

/// What a membership proof attests of its public values `chain_id`,
/// `process_id`, `census_root` and `nullifier`, with a secret key, an index
/// and a path as its witness: the public key of the secret key climbs from
/// the index along the path to the census root, and the nullifier is that
/// of the secret key for the election.
pub open spec fn membership_statement(
    hs: HashFn,
    chain_id: u64,
    process_id: u64,
    census_root: Seq<u64>,
    nullifier: Seq<u64>,
    sk: Seq<u64>,
    index: nat,
    path: Seq<Seq<u64>>,
) -> bool {
    &&& climb(hs, public_key_of(hs, sk), index, path) == census_root
    &&& nullifier == nullifier_of(hs, sk, chain_id, process_id)
}

/// Soundness of the circuit: values on the wires that satisfy the
/// membership circuit make the membership statement true of the values on
/// the public wires, with the values on the private wires as its witness;
/// and in a tree of more than one leaf the index names a leaf.
pub proof fn law_circuit_is_sound(hs: HashFn, height: nat, a: Seq<u64>)
    requires
        membership_wires(height) <= usize::MAX,
        satisfies(hs, standalone_membership_circuit(height), a),
    ensures
        ({
            let l = membership_layout(0, height);
            &&& membership_statement(
                hs,
                a[l.chain_id as int],
                a[l.process_id as int],
                values_at(a, l.census_root),
                values_at(a, l.nullifier),
                values_at(a, l.sk),
                a[l.pk_i as int] as nat,
                digests_at(a, l.siblings),
            )
            &&& height > 0 ==> a[l.pk_i as int] < pow2(height)
        }),
{
    let l = membership_layout(0, height);
    let c = standalone_membership_circuit(height);
    let gates = membership_gates(l);
    assert(c.gates =~= gates);
    assert(gate_holds(hs, c.gates[0], a));
    assert(gate_holds(hs, c.gates[1], a));
    assert(gate_holds(hs, c.gates[2], a));
    assert(gate_holds(hs, c.gates[3], a));
    assert(gate_holds(hs, c.gates[4], a));
    assert(gate_holds(hs, c.gates[5], a));
    assert(gate_holds(hs, c.gates[6], a));
    assert(gate_holds(hs, c.gates[7], a));
    assert(gate_holds(hs, c.gates[8], a));

    let sk = values_at(a, l.sk);
    let bits = values_at(a, l.index_bits);
    if height > 0 {
        lemma_le_value_bound(bits);
    }

    let leaf_wires = l.sk + seq![l.leaf_zero, l.leaf_zero, l.leaf_zero, l.leaf_zero];
    assert(values_at(a, leaf_wires) =~= public_key_preimage(sk));
    assert(leaf_digest(hs, values_at(a, leaf_wires)) == public_key_of(hs, sk));

    let scope_wires = l.sk + seq![l.chain_id, l.process_id, l.scope_zero, l.scope_zero];
    assert(values_at(a, scope_wires) =~= nullifier_preimage(
        sk,
        a[l.chain_id as int],
        a[l.process_id as int],
    ));
    assert(values_at(a, l.nullifier) =~= values_at(a, l.derived_nullifier));
}

/// The values a prover sets, as far as their sizes go: a secret key and a
/// root of four elements, and a path of `height` digests.
pub open spec fn well_sized(values: MembershipValues, height: nat) -> bool {
    &&& values.sk.len() == 4
    &&& values.census_root.len() == 4
    &&& values.path.len() == height
    &&& forall|i: int| 0 <= i < height ==> (#[trigger] values.path[i]).len() == 4
}

/// The value of every wire of a membership circuit, given the values that
/// the prover sets and the nullifier.
pub open spec fn membership_assignment(
    height: nat,
    values: MembershipValues,
    nullifier: Seq<u64>,
) -> Seq<u64> {
    let private = 10 + 4 * height;
    Seq::new(
        membership_wires(height),
        |i: int|
            if i == 0 {
                values.chain_id
            } else if i == 1 {
                values.process_id
            } else if i < 6 {
                values.census_root[i - 2]
            } else if i < 10 {
                nullifier[i - 6]
            } else if i < private {
                values.path[(i - 10) / 4][(i - 10) % 4]
            } else if i < private + 4 {
                values.sk[i - private]
            } else if i == private + 4 {
                values.pk_i
            } else if i < private + 5 + height {
                bit_of(values.pk_i as nat, (i - (private + 5)) as nat)
            } else if i < private + 7 + height {
                0u64
            } else {
                nullifier[i - (private + 7 + height)]
            },
    )
}

/// An assignment agrees with two witnesses laid end to end just if it
/// agrees with both.
pub proof fn lemma_agrees_concat(
    first: Seq<(usize, u64)>,
    second: Seq<(usize, u64)>,
    a: Seq<u64>,
)
    requires
        agrees(first, a),
        agrees(second, a),
    ensures
        agrees(first + second, a),
{
    let both = first + second;
    assert forall|i: int| 0 <= i < both.len() implies (#[trigger] both[i]).0 < a.len() && a[both[i].0 as int]
        == both[i].1 by {
        if i < first.len() {
            assert(both[i] == first[i]);
        } else {
            assert(both[i] == second[i - first.len()]);
        }
    }
}

/// An assignment that gives each wire of each of the first `count` digests
/// the element it is paired with agrees with the entries of the path.
pub proof fn lemma_agrees_path(
    targets: Seq<Seq<usize>>,
    values: Seq<Seq<u64>>,
    count: nat,
    a: Seq<u64>,
)
    requires
        count <= targets.len(),
        count <= values.len(),
        forall|i: int, k: int|
            0 <= i < count && 0 <= k < 4 ==> (#[trigger] targets[i][k]) < a.len() && a[targets[i][k] as int]
                == values[i][k],
    ensures
        agrees(path_entries(targets, values, count), a),
    decreases count,
{
    if count > 0 {
        lemma_agrees_path(targets, values, (count - 1) as nat, a);
        let last = digest_entries(targets[count - 1], values[count - 1]);
        assert(targets[count - 1][0] < a.len());
        assert(targets[count - 1][1] < a.len());
        assert(targets[count - 1][2] < a.len());
        assert(targets[count - 1][3] < a.len());
        assert(agrees(last, a));
        lemma_agrees_concat(path_entries(targets, values, (count - 1) as nat), last, a);
    }
}

/// Completeness of the circuit: where the membership statement is true of
/// the values that a prover sets and the index names a leaf, the wires can
/// be given values that satisfy the membership circuit, agree with the
/// prover's witness, and show the election, the root and the nullifier on
/// the public wires.
pub proof fn law_circuit_is_complete(
    hs: HashFn,
    height: nat,
    values: MembershipValues,
)
    requires
        membership_wires(height) <= usize::MAX,
        gives_digests(hs),
        well_sized(values, height),
        values.pk_i < pow2(height),
        membership_statement(
            hs,
            values.chain_id,
            values.process_id,
            values.census_root,
            nullifier_of(hs, values.sk, values.chain_id, values.process_id),
            values.sk,
            values.pk_i as nat,
            values.path,
        ),
    ensures
        ({
            let nullifier = nullifier_of(hs, values.sk, values.chain_id, values.process_id);
            let a = membership_assignment(height, values, nullifier);
            let c = standalone_membership_circuit(height);
            &&& satisfies(hs, c, a)
            &&& agrees(witness_for(membership_layout(0, height).prover_targets(), values), a)
            &&& public_values(c, a) == public_inputs_of(
                values.chain_id,
                values.process_id,
                values.census_root,
                nullifier,
            )
        }),
{
    let nullifier = nullifier_of(hs, values.sk, values.chain_id, values.process_id);
    let a = membership_assignment(height, values, nullifier);
    let c = standalone_membership_circuit(height);
    let l = membership_layout(0, height);
    let gates = membership_gates(l);
    let private = 10 + 4 * height;
    assert(nullifier.len() == 4);
    assert(c.gates =~= gates);

    // What the assignment shows on each group of wires.
    assert(values_at(a, l.census_root) =~= values.census_root);
    assert(values_at(a, l.nullifier) =~= nullifier);
    assert(values_at(a, l.derived_nullifier) =~= nullifier);
    assert(values_at(a, l.sk) =~= values.sk);
    assert(values_at(a, l.index_bits) =~= le_bits(values.pk_i as nat, height));
    assert(digests_at(a, l.siblings) =~= values.path) by {
        assert forall|i: int| 0 <= i < height implies #[trigger] digests_at(a, l.siblings)[i]
            =~= values.path[i] by {
            let group = l.siblings[i];
            assert(group == wire_run(10 + 4 * i, 4));
            assert forall|k: int| 0 <= k < 4 implies values_at(a, group)[k] == values.path[i][k] by {
                assert(group[k] == 10 + 4 * i + k);
                assert((10 + 4 * i + k - 10) / 4 == i);
                assert((10 + 4 * i + k - 10) % 4 == k);
            }
        }
    }
    let leaf_wires = l.sk + seq![l.leaf_zero, l.leaf_zero, l.leaf_zero, l.leaf_zero];
    assert(values_at(a, leaf_wires) =~= public_key_preimage(values.sk));
    let scope_wires = l.sk + seq![l.chain_id, l.process_id, l.scope_zero, l.scope_zero];
    assert(values_at(a, scope_wires) =~= nullifier_preimage(
        values.sk,
        values.chain_id,
        values.process_id,
    ));
    lemma_le_bits_spell(values.pk_i as nat, height);

    // Every gate holds.
    assert forall|i: int| 0 <= i < c.gates.len() implies gate_holds(hs, #[trigger] c.gates[i], a) by {
        if i == 0 {
            assert(gate_holds(hs, gates[0], a));
        } else if i == 1 {
            assert(gate_holds(hs, gates[1], a));
        } else if i == 2 {
            assert(gate_holds(hs, gates[2], a));
        } else if i == 3 {
            assert(gate_holds(hs, gates[3], a));
        } else if i == 4 {
            assert(gate_holds(hs, gates[4], a));
        } else if i == 5 {
            assert(gate_holds(hs, gates[5], a));
        } else if i == 6 {
            assert(gate_holds(hs, gates[6], a));
        } else if i == 7 {
            assert(gate_holds(hs, gates[7], a));
        } else {
            assert(gate_holds(hs, gates[8], a));
        }
    }

    // The prover's witness is part of the assignment.
    let t = l.prover_targets();
    let head = seq![(t.chain_id, values.chain_id), (t.process_id, values.process_id)];
    let root_part = digest_entries(t.census_root, values.census_root);
    let sk_part = digest_entries(t.sk, values.sk);
    let index_part = seq![(t.pk_i, values.pk_i)];
    let path_part = path_entries(t.siblings, values.path, height);
    assert(agrees(head, a));
    assert(agrees(root_part, a));
    assert(agrees(sk_part, a));
    assert(agrees(index_part, a));
    assert forall|i: int, k: int| 0 <= i < height && 0 <= k < 4 implies (#[trigger] t.siblings[i][k])
        < a.len() && a[t.siblings[i][k] as int] == values.path[i][k] by {
        assert(t.siblings[i] == wire_run(10 + 4 * i, 4));
        assert(t.siblings[i][k] == 10 + 4 * i + k);
        assert((10 + 4 * i + k - 10) / 4 == i);
        assert((10 + 4 * i + k - 10) % 4 == k);
    }
    lemma_agrees_path(t.siblings, values.path, height, a);
    lemma_agrees_concat(head, root_part, a);
    lemma_agrees_concat(head + root_part, sk_part, a);
    lemma_agrees_concat(head + root_part + sk_part, index_part, a);
    lemma_agrees_concat(head + root_part + sk_part + index_part, path_part, a);

    // The public wires show the election, the root and the nullifier.
    assert(c.public_inputs =~= membership_public_wires(l));
    assert(public_values(c, a) =~= public_inputs_of(
        values.chain_id,
        values.process_id,
        values.census_root,
        nullifier,
    ));
}

/// Anonymity of the layout: no wire of the secret key, of the index, of
/// its bits or of the path is a public wire.
pub proof fn law_private_wires_are_not_public(height: nat, k: int)
    requires
        membership_wires(height) <= usize::MAX,
        0 <= k < 10,
    ensures
        ({
            let l = membership_layout(0, height);
            let public = membership_public_wires(l)[k];
            &&& membership_public_wires(l).len() == 10
            &&& public != l.pk_i
            &&& forall|i: int| 0 <= i < 4 ==> public != #[trigger] l.sk[i]
            &&& forall|i: int| 0 <= i < height ==> public != #[trigger] l.index_bits[i]
            &&& forall|i: int, j: int|
                0 <= i < height && 0 <= j < 4 ==> public != #[trigger] l.siblings[i][j]
        }),
{
    let l = membership_layout(0, height);
    let wires = membership_public_wires(l);
    assert(wires.len() == 10);
    assert(wires[k] == k);
    assert forall|i: int, j: int| 0 <= i < height && 0 <= j < 4 implies wires[k]
        != #[trigger] l.siblings[i][j] by {
        assert(l.siblings[i] == wire_run(10 + 4 * i, 4));
        assert(l.siblings[i][j] == 10 + 4 * i + j);
    }
}

} // verus!

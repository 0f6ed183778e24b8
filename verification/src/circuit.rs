//! A plain description of a constraint system.
//!
//! A circuit is a number of wires, an ordered list of the wires that are
//! public, and a list of gates over the wires. The builder here only records
//! that description; a proof engine turns it into a proof.

use vstd::prelude::*;

verus! {

/// A wire of a circuit, named by its position among the circuit's wires.
pub type Target = usize;

/// The choices a proof engine needs besides the circuit itself.
#[derive(Clone, Copy, Debug, PartialEq, Eq, Structural)]
pub struct CircuitConfig {
    /// Whether proofs hide the witness.
    pub zero_knowledge: bool,
    /// The height of the Merkle caps inside proofs and verification keys.
    pub cap_height: usize,
}

/// The configuration every circuit of this crate is built with: proofs
/// hide the witness, and Merkle caps have height four.
pub open spec fn standard_config() -> CircuitConfig {
    CircuitConfig { zero_knowledge: true, cap_height: 4 }
}

impl CircuitConfig {
    /// The configuration for proofs that hide the witness and can be
    /// verified inside another circuit.
    pub fn standard_recursion_zk_config() -> (c: CircuitConfig)
        ensures
            c == standard_config(),
    {
        CircuitConfig { zero_knowledge: true, cap_height: 4 }
    }
}

/// Four wires that carry a digest.
#[derive(Clone, Copy, Debug)]
pub struct HashOutTarget {
    pub elements: [Target; 4],
}

/// The wires that carry a Merkle path, lowest sibling first.
#[derive(Debug)]
pub struct MerkleProofTarget {
    pub siblings: Vec<HashOutTarget>,
}

/// One constraint over the wires of a circuit.
#[derive(Debug)]
pub enum Gate {
    /// The wire carries a fixed value.
    Constant { target: Target, value: u64 },
    /// The wires `bits` carry zeros and ones that spell `integer`, lowest bit
    /// first.
    SplitLe { integer: Target, bits: Vec<Target> },
    /// The wires `output` carry the hash of the values on `inputs`.
    Hash { inputs: Vec<Target>, output: HashOutTarget },
    /// The leaf made of `leaf_data`, at the position spelled by
    /// `index_bits`, climbs along `siblings` to `root`.
    MerkleProof {
        leaf_data: Vec<Target>,
        index_bits: Vec<Target>,
        root: HashOutTarget,
        siblings: Vec<HashOutTarget>,
    },
    /// The two wires carry the same value.
    Connect { left: Target, right: Target },
}

/// A gate as a mathematical value.
pub enum GateView {
    Constant { target: usize, value: u64 },
    SplitLe { integer: usize, bits: Seq<usize> },
    Hash { inputs: Seq<usize>, output: Seq<usize> },
    MerkleProof {
        leaf_data: Seq<usize>,
        index_bits: Seq<usize>,
        root: Seq<usize>,
        siblings: Seq<Seq<usize>>,
    },
    Connect { left: usize, right: usize },
}

/// The wires of each digest of a run, one sequence of four each.
pub open spec fn hash_targets_view(v: Seq<HashOutTarget>) -> Seq<Seq<usize>> {
    Seq::new(v.len(), |i: int| v[i].elements@)
}

/// The views of a run of gates.
pub open spec fn gates_view(v: Seq<Gate>) -> Seq<GateView> {
    Seq::new(v.len(), |i: int| v[i]@)
}

/// `count` consecutive wires, starting at `first`.
pub open spec fn wire_run(first: int, count: nat) -> Seq<usize> {
    Seq::new(count, |i: int| (first + i) as usize)
}

/// `count` consecutive groups of four wires, starting at `first`.
pub open spec fn hash_run(first: int, count: nat) -> Seq<Seq<usize>> {
    Seq::new(count, |i: int| wire_run(first + 4 * i, 4))
}

impl View for Gate {
    type V = GateView;

    open spec fn view(&self) -> GateView {
        match *self {
            Gate::Constant { target, value } => GateView::Constant { target, value },
            Gate::SplitLe { integer, bits } => GateView::SplitLe { integer, bits: bits@ },
            Gate::Hash { inputs, output } => GateView::Hash {
                inputs: inputs@,
                output: output.elements@,
            },
            Gate::MerkleProof { leaf_data, index_bits, root, siblings } => GateView::MerkleProof {
                leaf_data: leaf_data@,
                index_bits: index_bits@,
                root: root.elements@,
                siblings: hash_targets_view(siblings@),
            },
            Gate::Connect { left, right } => GateView::Connect { left, right },
        }
    }
}

/// A circuit as a mathematical value.
pub struct CircuitView {
    /// The engine's configuration.
    pub config: CircuitConfig,
    /// The number of wires.
    pub num_targets: nat,
    /// The public wires, in the order in which a verifier supplies their
    /// values.
    pub public_inputs: Seq<usize>,
    /// The constraints.
    pub gates: Seq<GateView>,
}

impl CircuitView {
    /// The circuit with nothing in it.
    pub open spec fn empty(config: CircuitConfig) -> CircuitView {
        CircuitView { config, num_targets: 0, public_inputs: Seq::empty(), gates: Seq::empty() }
    }

    /// This circuit with `count` more wires.
    pub open spec fn with_targets(self, count: nat) -> CircuitView {
        CircuitView { num_targets: self.num_targets + count, ..self }
    }

    /// This circuit with more public wires after those it has.
    pub open spec fn with_public_inputs(self, targets: Seq<usize>) -> CircuitView {
        CircuitView { public_inputs: self.public_inputs + targets, ..self }
    }

    /// This circuit with one more gate after those it has.
    pub open spec fn with_gate(self, gate: GateView) -> CircuitView {
        CircuitView { gates: self.gates.push(gate), ..self }
    }
}

/// The shape of a circuit: what two proofs must share to be verified by one
/// verification key.
#[derive(Clone, Copy, Debug, PartialEq, Eq, Structural)]
pub struct CommonCircuitData {
    pub config: CircuitConfig,
    pub num_targets: usize,
    pub num_public_inputs: usize,
    pub num_gates: usize,
}

/// A finished circuit description.
#[derive(Debug)]
pub struct Circuit {
    pub config: CircuitConfig,
    pub num_targets: usize,
    pub public_inputs: Vec<Target>,
    pub gates: Vec<Gate>,
}

impl View for Circuit {
    type V = CircuitView;

    open spec fn view(&self) -> CircuitView {
        CircuitView {
            config: self.config,
            num_targets: self.num_targets as nat,
            public_inputs: self.public_inputs@,
            gates: gates_view(self.gates@),
        }
    }
}

impl Circuit {
    /// The shape of this circuit.
    pub fn common(&self) -> (s: CommonCircuitData)
        ensures
            s == common_of(self@),
    {
        CommonCircuitData {
            config: self.config,
            num_targets: self.num_targets,
            num_public_inputs: self.public_inputs.len(),
            num_gates: self.gates.len(),
        }
    }
}

/// The shape of a circuit.
pub open spec fn common_of(c: CircuitView) -> CommonCircuitData {
    CommonCircuitData {
        config: c.config,
        num_targets: c.num_targets as usize,
        num_public_inputs: c.public_inputs.len() as usize,
        num_gates: c.gates.len() as usize,
    }
}

/// A copy of a run of wires.
pub fn copy_targets(v: &Vec<Target>) -> (r: Vec<Target>)
    ensures
        r@ == v@,
{
    let mut r: Vec<Target> = Vec::new();
    let mut i: usize = 0;
    while i < v.len()
        invariant
            i <= v.len(),
            r@ == v@.take(i as int),
        decreases v.len() - i,
    {
        r.push(v[i]);
        assert(v@.take(i as int).push(v[i as int]) =~= v@.take(i + 1));
        i = i + 1;
    }
    assert(v@.take(v.len() as int) =~= v@);
    r
}

/// A copy of a run of digest wires.
pub fn copy_hash_targets(v: &Vec<HashOutTarget>) -> (r: Vec<HashOutTarget>)
    ensures
        r@ == v@,
{
    let mut r: Vec<HashOutTarget> = Vec::new();
    let mut i: usize = 0;
    while i < v.len()
        invariant
            i <= v.len(),
            r@ == v@.take(i as int),
        decreases v.len() - i,
    {
        r.push(v[i]);
        assert(v@.take(i as int).push(v[i as int]) =~= v@.take(i + 1));
        i = i + 1;
    }
    assert(v@.take(v.len() as int) =~= v@);
    r
}

/// Records a circuit wire by wire and gate by gate.
#[derive(Debug)]
pub struct CircuitBuilder {
    pub config: CircuitConfig,
    pub num_targets: usize,
    pub public_inputs: Vec<Target>,
    pub gates: Vec<Gate>,
}

impl View for CircuitBuilder {
    type V = CircuitView;

    open spec fn view(&self) -> CircuitView {
        CircuitView {
            config: self.config,
            num_targets: self.num_targets as nat,
            public_inputs: self.public_inputs@,
            gates: gates_view(self.gates@),
        }
    }
}

impl CircuitBuilder {
    /// A builder that has recorded nothing.
    pub fn new(config: CircuitConfig) -> (b: CircuitBuilder)
        ensures
            b@ == CircuitView::empty(config),
    {
        let b = CircuitBuilder {
            config,
            num_targets: 0,
            public_inputs: Vec::new(),
            gates: Vec::new(),
        };
        assert(b@.gates =~= Seq::empty());
        b
    }

    /// Adds one wire with no constraint on it.
    pub fn add_virtual_target(&mut self) -> (t: Target)
        requires
            old(self).num_targets < usize::MAX,
        ensures
            t == old(self).num_targets,
            final(self)@ == old(self)@.with_targets(1),
    {
        let t: Target = self.num_targets;
        self.num_targets = t + 1;
        t
    }

    /// Adds `count` consecutive wires.
    pub fn add_virtual_targets(&mut self, count: usize) -> (ts: Vec<Target>)
        requires
            old(self).num_targets + count <= usize::MAX,
        ensures
            ts@ == wire_run(old(self).num_targets as int, count as nat),
            final(self)@ == old(self)@.with_targets(count as nat),
    {
        let first: usize = self.num_targets;
        let mut ts: Vec<Target> = Vec::new();
        let mut i: usize = 0;
        while i < count
            invariant
                i <= count,
                first + count <= usize::MAX,
                ts@ == wire_run(first as int, i as nat),
            decreases count - i,
        {
            ts.push(first + i);
            assert(ts@ =~= wire_run(first as int, (i + 1) as nat));
            i = i + 1;
        }
        self.num_targets = first + count;
        ts
    }

    /// Adds four consecutive wires that carry a digest.
    pub fn add_virtual_hash(&mut self) -> (h: HashOutTarget)
        requires
            old(self).num_targets + 4 <= usize::MAX,
        ensures
            h.elements@ == wire_run(old(self).num_targets as int, 4),
            final(self)@ == old(self)@.with_targets(4),
    {
        let first: usize = self.num_targets;
        let h = HashOutTarget { elements: [first, first + 1, first + 2, first + 3] };
        assert(h.elements@ =~= wire_run(first as int, 4));
        self.num_targets = first + 4;
        h
    }

    /// Adds `count` digests, four consecutive wires each.
    pub fn add_virtual_hashes(&mut self, count: usize) -> (hs: Vec<HashOutTarget>)
        requires
            old(self).num_targets + 4 * count <= usize::MAX,
        ensures
            hash_targets_view(hs@) == hash_run(old(self).num_targets as int, count as nat),
            hs.len() == count,
            final(self)@ == old(self)@.with_targets(4 * count as nat),
    {
        let first: usize = self.num_targets;
        let mut hs: Vec<HashOutTarget> = Vec::new();
        let mut i: usize = 0;
        while i < count
            invariant
                i <= count,
                first + 4 * count <= usize::MAX,
                hs.len() == i,
                hash_targets_view(hs@) == hash_run(first as int, i as nat),
            decreases count - i,
        {
            let at: usize = first + 4 * i;
            let h = HashOutTarget { elements: [at, at + 1, at + 2, at + 3] };
            assert(h.elements@ =~= wire_run(at as int, 4));
            let ghost before = hs@;
            hs.push(h);
            proof {
                let got = hash_targets_view(hs@);
                let want = hash_run(first as int, (i + 1) as nat);
                assert forall|j: int| 0 <= j < got.len() implies got[j] == want[j] by {
                    if j < i {
                        assert(got[j] == hash_targets_view(before)[j]);
                    }
                }
                assert(got =~= want);
            }
            i = i + 1;
        }
        self.num_targets = first + 4 * count;
        hs
    }

    /// Makes a wire public; public wires keep the order in which they were
    /// registered.
    pub fn register_public_input(&mut self, target: Target)
        ensures
            final(self)@ == old(self)@.with_public_inputs(seq![target]),
    {
        self.public_inputs.push(target);
        assert(self@.public_inputs =~= old(self)@.public_inputs + seq![target]);
    }

    /// Makes the four wires of a digest public, in their order.
    pub fn register_public_inputs(&mut self, targets: &[Target; 4])
        ensures
            final(self)@ == old(self)@.with_public_inputs(targets@),
    {
        self.public_inputs.push(targets[0]);
        self.public_inputs.push(targets[1]);
        self.public_inputs.push(targets[2]);
        self.public_inputs.push(targets[3]);
        assert(self@.public_inputs =~= old(self)@.public_inputs + targets@);
    }

    /// Adds a wire that carries zero.
    pub fn zero(&mut self) -> (t: Target)
        requires
            old(self).num_targets < usize::MAX,
        ensures
            t == old(self).num_targets,
            final(self)@ == old(self)@.with_targets(1).with_gate(
                GateView::Constant { target: t, value: 0 },
            ),
    {
        let t: Target = self.num_targets;
        self.num_targets = t + 1;
        self.gates.push(Gate::Constant { target: t, value: 0 });
        assert(self@.gates =~= old(self)@.gates.push(GateView::Constant { target: t, value: 0 }));
        t
    }

    /// Splits the value on a wire into `num_bits` bits on new wires, lowest
    /// bit first.
    pub fn split_le(&mut self, integer: Target, num_bits: usize) -> (bits: Vec<Target>)
        requires
            old(self).num_targets + num_bits <= usize::MAX,
        ensures
            bits@ == wire_run(old(self).num_targets as int, num_bits as nat),
            final(self)@ == old(self)@.with_targets(num_bits as nat).with_gate(
                GateView::SplitLe { integer, bits: bits@ },
            ),
    {
        let bits = self.add_virtual_targets(num_bits);
        let kept = copy_targets(&bits);
        self.gates.push(Gate::SplitLe { integer, bits: kept });
        assert(self@.gates =~= old(self)@.gates.push(GateView::SplitLe { integer, bits: bits@ }));
        bits
    }

    /// Hashes the values on `inputs` onto four new wires.
    pub fn hash_n_to_hash_no_pad(&mut self, inputs: Vec<Target>) -> (output: HashOutTarget)
        requires
            old(self).num_targets + 4 <= usize::MAX,
        ensures
            output.elements@ == wire_run(old(self).num_targets as int, 4),
            final(self)@ == old(self)@.with_targets(4).with_gate(
                GateView::Hash { inputs: inputs@, output: output.elements@ },
            ),
    {
        let output = self.add_virtual_hash();
        let ghost given = inputs@;
        self.gates.push(Gate::Hash { inputs, output });
        assert(self@.gates =~= old(self)@.gates.push(
            GateView::Hash { inputs: given, output: output.elements@ },
        ));
        output
    }

    /// Constrains a leaf, a position and a path to lead to a root.
    pub fn verify_merkle_proof(
        &mut self,
        leaf_data: Vec<Target>,
        leaf_index_bits: &Vec<Target>,
        merkle_root: HashOutTarget,
        proof: &MerkleProofTarget,
    )
        ensures
            final(self)@ == old(self)@.with_gate(
                GateView::MerkleProof {
                    leaf_data: leaf_data@,
                    index_bits: leaf_index_bits@,
                    root: merkle_root.elements@,
                    siblings: hash_targets_view(proof.siblings@),
                },
            ),
    {
        let index_bits = copy_targets(leaf_index_bits);
        let siblings = copy_hash_targets(&proof.siblings);
        let ghost given = leaf_data@;
        self.gates.push(Gate::MerkleProof { leaf_data, index_bits, root: merkle_root, siblings });
        assert(self@.gates =~= old(self)@.gates.push(
            GateView::MerkleProof {
                leaf_data: given,
                index_bits: leaf_index_bits@,
                root: merkle_root.elements@,
                siblings: hash_targets_view(proof.siblings@),
            },
        ));
    }

    /// Constrains two wires to carry the same value.
    pub fn connect(&mut self, left: Target, right: Target)
        ensures
            final(self)@ == old(self)@.with_gate(GateView::Connect { left, right }),
    {
        self.gates.push(Gate::Connect { left, right });
        assert(self@.gates =~= old(self)@.gates.push(GateView::Connect { left, right }));
    }

    /// Ends the recording.
    pub fn build(self) -> (c: Circuit)
        ensures
            c@ == self@,
    {
        Circuit {
            config: self.config,
            num_targets: self.num_targets,
            public_inputs: self.public_inputs,
            gates: self.gates,
        }
    }
}

} // verus!

//! The membership proof of a single voter.
//!
//! The circuit has ten public wires, in this order: the chain identifier,
//! the process identifier, the four elements of the census root and the four
//! elements of the nullifier. The secret key, the voter's index and the
//! Merkle path are private.

use vstd::prelude::*;
use crate::census::CensusTree;
use crate::circuit::{
    common_of, hash_run, hash_targets_view, standard_config, wire_run, Circuit, CircuitBuilder,
    CircuitConfig,
    CircuitView, CommonCircuitData, GateView, HashOutTarget, MerkleProofTarget, Target,
};
use crate::field::{digest_eq, from_canonical_usize, Digest, ORDER};
use crate::hash::{derive_nullifier, derive_public_key, nullifier_of, public_key_of};
use crate::merkle::{
    climb, lemma_log2_of_word, lemma_pow2_halves, lemma_pow2_is_vstd, log2, merkle_path,
    recompute_root,
};
use crate::witness::{digest_entries, path_entries, PartialWitness};

verus! {

/// The wires of a membership circuit that the prover sets.
#[derive(Debug)]
pub struct CensusTargets {
    pub chain_id: Target,
    pub process_id: Target,
    pub census_root: HashOutTarget,
    pub merkle_proof: MerkleProofTarget,
    pub sk: [Target; 4],
    pub pk_i: Target,
}

/// A proof of membership together with the nullifier it attests and the
/// shape of the circuit it was made for.
#[derive(Debug, Clone)]
pub struct ProofPackage<P> {
    pub nullifier: Digest,
    pub proof: P,
    pub common: CommonCircuitData,
}

/// What a verifier needs to check proofs of one circuit: the circuit's shape
/// and the engine's own verification key.
#[derive(Debug, Clone)]
pub struct VerifierCircuitData<V> {
    pub common: CommonCircuitData,
    pub verifier_only: V,
}

/// A proof with the public values it is to be checked against.
#[derive(Debug, Clone)]
pub struct ProofWithPublicInputs<P> {
    pub proof: P,
    pub public_inputs: Vec<u64>,
}

/// Why a proof could not be made, checked or aggregated. `E` is the proof
/// engine's own error, handed on as it came.
#[derive(Debug)]
pub enum ProofError<E> {
    /// The witness does not fit the public inputs it is claimed for.
    WitnessAssignment,
    /// The proof engine rejected the proof.
    ProofInvalid(E),
    /// The census root supplied is not the root of this census.
    PublicInputMismatch,
    /// The proofs to aggregate were made for circuits of different shapes.
    RecursiveVerificationSetup,
    /// The proof engine failed to produce a proof.
    Engine(E),
}

/// The public values of a membership proof, in the order of the circuit's
/// public wires.
pub open spec fn public_inputs_of(
    chain_id: u64,
    process_id: u64,
    census_root: Seq<u64>,
    nullifier: Seq<u64>,
) -> Seq<u64> {
    seq![chain_id, process_id] + census_root + nullifier
}

/// Lays out the public values of a membership proof.
pub fn public_inputs(
    chain_id: usize,
    process_id: usize,
    census_root: &Digest,
    nullifier: &Digest,
) -> (v: Vec<u64>)
    requires
        chain_id < ORDER,
        process_id < ORDER,
    ensures
        v@ == public_inputs_of(chain_id as u64, process_id as u64, census_root@, nullifier@),
{
    let mut v: Vec<u64> = Vec::new();
    v.push(from_canonical_usize(chain_id));
    v.push(from_canonical_usize(process_id));
    v.push(census_root[0]);
    v.push(census_root[1]);
    v.push(census_root[2]);
    v.push(census_root[3]);
    v.push(nullifier[0]);
    v.push(nullifier[1]);
    v.push(nullifier[2]);
    v.push(nullifier[3]);
    assert(v@ =~= public_inputs_of(
        chain_id as u64,
        process_id as u64,
        census_root@,
        nullifier@,
    ));
    v
}

/// The membership circuit for a tree of `height` levels, recorded on its
/// own.
pub open spec fn standalone_membership_circuit(height: nat) -> CircuitView {
    membership_circuit(CircuitView::empty(standard_config()), height)
}

/// The wires that the prover sets, as a mathematical value.
pub struct CensusTargetsView {
    pub chain_id: usize,
    pub process_id: usize,
    pub census_root: Seq<usize>,
    pub siblings: Seq<Seq<usize>>,
    pub sk: Seq<usize>,
    pub pk_i: usize,
}

impl View for CensusTargets {
    type V = CensusTargetsView;

    open spec fn view(&self) -> CensusTargetsView {
        CensusTargetsView {
            chain_id: self.chain_id,
            process_id: self.process_id,
            census_root: self.census_root.elements@,
            siblings: hash_targets_view(self.merkle_proof.siblings@),
            sk: self.sk@,
            pk_i: self.pk_i,
        }
    }
}

/// The values that a prover sets.
pub struct MembershipValues {
    pub chain_id: u64,
    pub process_id: u64,
    pub census_root: Seq<u64>,
    pub sk: Seq<u64>,
    pub pk_i: u64,
    pub path: Seq<Seq<u64>>,
}

/// The smaller of two lengths.
pub open spec fn shorter(a: nat, b: nat) -> nat {
    if a <= b {
        a
    } else {
        b
    }
}

/// The witness of a membership proof: each wire of `targets` with the value
/// it takes, in the order in which they are set. Siblings are set as far as
/// both the wires and the path reach.
pub open spec fn witness_for(targets: CensusTargetsView, values: MembershipValues) -> Seq<
    (usize, u64),
> {
    seq![(targets.chain_id, values.chain_id), (targets.process_id, values.process_id)]
        + digest_entries(targets.census_root, values.census_root) + digest_entries(
        targets.sk,
        values.sk,
    ) + seq![(targets.pk_i, values.pk_i)] + path_entries(
        targets.siblings,
        values.path,
        shorter(targets.siblings.len(), values.path.len()),
    )
}

/// Where each wire of a membership circuit stands.
pub struct MembershipLayout {
    pub chain_id: usize,
    pub process_id: usize,
    pub census_root: Seq<usize>,
    pub nullifier: Seq<usize>,
    pub siblings: Seq<Seq<usize>>,
    pub sk: Seq<usize>,
    pub pk_i: usize,
    pub index_bits: Seq<usize>,
    pub leaf_zero: usize,
    pub scope_zero: usize,
    pub derived_nullifier: Seq<usize>,
}

/// The number of wires of a membership circuit for a tree of `height`
/// levels.
pub open spec fn membership_wires(height: nat) -> nat {
    21 + 5 * height
}

/// The layout of a membership circuit whose first wire is `base`.
pub open spec fn membership_layout(base: int, height: nat) -> MembershipLayout {
    let private = base + 10 + 4 * height;
    MembershipLayout {
        chain_id: base as usize,
        process_id: (base + 1) as usize,
        census_root: wire_run(base + 2, 4),
        nullifier: wire_run(base + 6, 4),
        siblings: hash_run(base + 10, height),
        sk: wire_run(private, 4),
        pk_i: (private + 4) as usize,
        index_bits: wire_run(private + 5, height),
        leaf_zero: (private + 5 + height) as usize,
        scope_zero: (private + 6 + height) as usize,
        derived_nullifier: wire_run(private + 7 + height, 4),
    }
}

/// The public wires, in the order in which a verifier supplies their values.
pub open spec fn membership_public_wires(l: MembershipLayout) -> Seq<usize> {
    seq![l.chain_id, l.process_id] + l.census_root + l.nullifier
}

/// The constraints of a membership circuit.
pub open spec fn membership_gates(l: MembershipLayout) -> Seq<GateView> {
    seq![
        GateView::SplitLe { integer: l.pk_i, bits: l.index_bits },
        GateView::Constant { target: l.leaf_zero, value: 0 },
        GateView::MerkleProof {
            leaf_data: l.sk + seq![l.leaf_zero, l.leaf_zero, l.leaf_zero, l.leaf_zero],
            index_bits: l.index_bits,
            root: l.census_root,
            siblings: l.siblings,
        },
        GateView::Constant { target: l.scope_zero, value: 0 },
        GateView::Hash {
            inputs: l.sk + seq![l.chain_id, l.process_id, l.scope_zero, l.scope_zero],
            output: l.derived_nullifier,
        },
        GateView::Connect { left: l.nullifier[0], right: l.derived_nullifier[0] },
        GateView::Connect { left: l.nullifier[1], right: l.derived_nullifier[1] },
        GateView::Connect { left: l.nullifier[2], right: l.derived_nullifier[2] },
        GateView::Connect { left: l.nullifier[3], right: l.derived_nullifier[3] },
    ]
}

/// The circuit `before` with a membership circuit for `height` levels
/// recorded after it.
pub open spec fn membership_circuit(before: CircuitView, height: nat) -> CircuitView {
    let l = membership_layout(before.num_targets as int, height);
    CircuitView {
        num_targets: before.num_targets + membership_wires(height),
        public_inputs: before.public_inputs + membership_public_wires(l),
        gates: before.gates + membership_gates(l),
        ..before
    }
}

impl MembershipLayout {
    /// The wires that the prover sets.
    pub open spec fn prover_targets(self) -> CensusTargetsView {
        CensusTargetsView {
            chain_id: self.chain_id,
            process_id: self.process_id,
            census_root: self.census_root,
            siblings: self.siblings,
            sk: self.sk,
            pk_i: self.pk_i,
        }
    }
}

/// Two runs of wires laid end to end.
pub fn concat_targets(left: &[Target; 4], right: &[Target; 4]) -> (v: Vec<Target>)
    ensures
        v@ == left@ + right@,
{
    let mut v: Vec<Target> = Vec::new();
    v.push(left[0]);
    v.push(left[1]);
    v.push(left[2]);
    v.push(left[3]);
    v.push(right[0]);
    v.push(right[1]);
    v.push(right[2]);
    v.push(right[3]);
    assert(v@ =~= left@ + right@);
    v
}

impl<H: Fn(Vec<u64>) -> Digest> CensusTree<H> {
    /// Records the membership circuit for this tree's height and returns the
    /// wires that the prover sets.
    pub fn circuit(&self, builder: &mut CircuitBuilder) -> (targets: CensusTargets)
        requires
            old(builder).num_targets + membership_wires(self.height()) <= usize::MAX,
        ensures
            final(builder)@ == membership_circuit(old(builder)@, self.height()),
            targets@ == membership_layout(
                old(builder).num_targets as int,
                self.height(),
            ).prover_targets(),
    {
        let height: usize = self.tree_height();
        let ghost before = builder@;
        let ghost l = membership_layout(builder.num_targets as int, height as nat);

        // The public wires.
        let chain_id: Target = builder.add_virtual_target();
        builder.register_public_input(chain_id);
        let process_id: Target = builder.add_virtual_target();
        builder.register_public_input(process_id);
        let census_root = builder.add_virtual_hash();
        builder.register_public_inputs(&census_root.elements);
        let nullifier = builder.add_virtual_hash();
        builder.register_public_inputs(&nullifier.elements);

        // The Merkle path.
        let merkle_proof = MerkleProofTarget { siblings: builder.add_virtual_hashes(height) };

        // The public key of the secret key is a leaf of the census.
        let sk_wires = builder.add_virtual_targets(4);
        let sk: [Target; 4] = [sk_wires[0], sk_wires[1], sk_wires[2], sk_wires[3]];
        assert(sk@ =~= l.sk);
        let pk_i: Target = builder.add_virtual_target();
        let pk_i_bits = builder.split_le(pk_i, height);
        let zero: Target = builder.zero();
        let padding: [Target; 4] = [zero, zero, zero, zero];
        assert(padding@ =~= seq![l.leaf_zero, l.leaf_zero, l.leaf_zero, l.leaf_zero]);
        let leaf_data = concat_targets(&sk, &padding);
        builder.verify_merkle_proof(leaf_data, &pk_i_bits, census_root, &merkle_proof);

        // The nullifier is the hash of the secret key and the election.
        let zero: Target = builder.zero();
        let scope: [Target; 4] = [chain_id, process_id, zero, zero];
        assert(scope@ =~= seq![l.chain_id, l.process_id, l.scope_zero, l.scope_zero]);
        let should_be_nullifier = builder.hash_n_to_hash_no_pad(concat_targets(&sk, &scope));
        assert(builder@.public_inputs =~= before.public_inputs + membership_public_wires(l));
        assert(builder@.gates =~= before.gates + membership_gates(l).take(5));
        let mut i: usize = 0;
        while i < 4
            invariant
                i <= 4,
                builder@.config == before.config,
                builder@.num_targets == before.num_targets + membership_wires(height as nat),
                builder@.public_inputs == before.public_inputs + membership_public_wires(l),
                builder@.gates == before.gates + membership_gates(l).take(5 + i),
                nullifier.elements@ == l.nullifier,
                should_be_nullifier.elements@ == l.derived_nullifier,
            decreases 4 - i,
        {
            builder.connect(nullifier.elements[i], should_be_nullifier.elements[i]);
            assert(builder@.gates =~= before.gates + membership_gates(l).take(6 + i));
            i = i + 1;
        }
        assert(membership_gates(l).take(9) =~= membership_gates(l));

        CensusTargets { chain_id, process_id, census_root, merkle_proof, sk, pk_i }
    }

    /// The values a prover sets for the voter at index `pk_i`.
    pub open spec fn membership_values(
        &self,
        chain_id: usize,
        process_id: usize,
        sk: Seq<u64>,
        pk_i: usize,
    ) -> MembershipValues {
        MembershipValues {
            chain_id: chain_id as u64,
            process_id: process_id as u64,
            census_root: self.root_digest(),
            sk,
            pk_i: pk_i as u64,
            path: merkle_path(self.hash_fn(), self.leaves(), pk_i as nat),
        }
    }

    /// Sets the wires of a membership circuit for the voter at index `pk_i`:
    /// the election, this tree's root, the secret key, the index and the
    /// path of the index.
    pub fn fill_census_targets(
        &self,
        pw: &mut PartialWitness,
        chain_id: usize,
        process_id: usize,
        sk: Digest,
        pk_i: usize,
        targets: CensusTargets,
    )
        requires
            chain_id < ORDER,
            process_id < ORDER,
            pk_i < self.leaves().len(),
        ensures
            final(pw)@ == old(pw)@ + witness_for(
                targets@,
                self.membership_values(chain_id, process_id, sk@, pk_i),
            ),
    {
        let CensusTargets {
            chain_id: chain_id_target,
            process_id: process_id_target,
            census_root,
            merkle_proof: merkle_proof_target,
            sk: sk_target,
            pk_i: pk_i_target,
        } = targets;
        let ghost values = self.membership_values(chain_id, process_id, sk@, pk_i);
        proof {
            use_type_invariant(self);
            self.lemma_index_is_canonical(pk_i);
        }

        pw.set_target(chain_id_target, from_canonical_usize(chain_id));
        pw.set_target(process_id_target, from_canonical_usize(process_id));
        pw.set_hash_target(census_root, self.root());
        pw.set_target_arr(&sk_target, sk);
        pw.set_target(pk_i_target, from_canonical_usize(pk_i));

        let merkle_proof = match self.path_for(pk_i) {
            Ok(path) => path,
            Err(_) => Vec::new(),
        };
        let ghost fixed = pw@;
        let ghost wires = hash_targets_view(merkle_proof_target.siblings@);
        let ghost path = merkle_path(self.hash_fn(), self.leaves(), pk_i as nat);
        let count: usize = if merkle_proof_target.siblings.len() <= merkle_proof.len() {
            merkle_proof_target.siblings.len()
        } else {
            merkle_proof.len()
        };
        let mut i: usize = 0;
        while i < count
            invariant
                i <= count,
                count <= merkle_proof_target.siblings.len(),
                count <= merkle_proof.len(),
                wires == hash_targets_view(merkle_proof_target.siblings@),
                path == crate::field::digests_view(merkle_proof@),
                pw@ == fixed + path_entries(wires, path, i as nat),
            decreases count - i,
        {
            pw.set_hash_target(merkle_proof_target.siblings[i], merkle_proof[i]);
            assert(pw@ =~= fixed + path_entries(wires, path, (i + 1) as nat));
            i = i + 1;
        }
        assert(pw@ =~= old(pw)@ + witness_for(targets@, values));
    }

    /// Every index of the tree is below the order of the field.
    pub proof fn lemma_index_is_canonical(&self, pk_i: usize)
        requires
            self.wf(),
            pk_i < self.leaves().len(),
        ensures
            pk_i < ORDER,
    {
        self.lemma_leaf_count();
        let n = self.leaves().len();
        lemma_pow2_halves(n);
        lemma_log2_of_word(n);
        lemma_pow2_is_vstd(log2(n));
        vstd::arithmetic::power2::lemma2_to64();
        vstd::arithmetic::power2::lemma2_to64_rest();
        if log2(n) < 63 {
            vstd::arithmetic::power2::lemma_pow2_strictly_increases(log2(n), 63);
        }
    }

    /// Whether the secret key `sk` opens the leaf at index `pk_i`: the index
    /// is in range, and the public key of `sk` climbs along the path of the
    /// index to the root.
    pub open spec fn admits(&self, sk: Seq<u64>, pk_i: usize) -> bool {
        &&& pk_i < self.leaves().len()
        &&& climb(
            self.hash_fn(),
            public_key_of(self.hash_fn(), sk),
            pk_i as nat,
            merkle_path(self.hash_fn(), self.leaves(), pk_i as nat),
        ) == self.root_digest()
    }

    /// Whether `circuit` and `witness` are what is handed to the proof
    /// engine for the voter at index `pk_i`.
    pub open spec fn is_proving_job(
        &self,
        circuit: CircuitView,
        witness: Seq<(usize, u64)>,
        chain_id: usize,
        process_id: usize,
        sk: Seq<u64>,
        pk_i: usize,
    ) -> bool {
        &&& circuit == standalone_membership_circuit(self.height())
        &&& witness == witness_for(
            membership_layout(0, self.height()).prover_targets(),
            self.membership_values(chain_id, process_id, sk, pk_i),
        )
    }

    /// What `gen_proof` returns. Where `sk` does not open the leaf at `pk_i`
    /// the witness is refused. Otherwise the engine was handed the
    /// membership circuit and its witness, and `res` is its answer,
    /// packaged with the nullifier of `sk` for the election.
    pub open spec fn proving_outcome<
        P,
        V,
        E,
        Pr: FnOnce(Circuit, PartialWitness) -> Result<(P, V), E>,
    >(
        &self,
        prove: Pr,
        chain_id: usize,
        process_id: usize,
        sk: Seq<u64>,
        pk_i: usize,
        res: Result<(ProofPackage<P>, VerifierCircuitData<V>), ProofError<E>>,
    ) -> bool {
        &&& !self.admits(sk, pk_i) ==> res == Err::<
            (ProofPackage<P>, VerifierCircuitData<V>),
            ProofError<E>,
        >(ProofError::WitnessAssignment)
        &&& self.admits(sk, pk_i) ==> exists|
            c: Circuit,
            w: PartialWitness,
            answer: Result<(P, V), E>,
        |
            {
                &&& self.is_proving_job(c@, w@, chain_id, process_id, sk, pk_i)
                &&& #[trigger] prove.ensures((c, w), answer)
                &&& packaged(
                    nullifier_of(self.hash_fn(), sk, chain_id as u64, process_id as u64),
                    common_of(standalone_membership_circuit(self.height())),
                    answer,
                    res,
                )
            }
    }

    /// What `verify_proof` returns. A root that is not this census's root
    /// is refused. Otherwise the engine was handed the package's proof with
    /// the ten public values in their order, and `res` is its verdict.
    pub open spec fn verification_outcome<
        P,
        V,
        E,
        Vf: FnOnce(&VerifierCircuitData<V>, &ProofWithPublicInputs<P>) -> Result<(), E>,
    >(
        &self,
        verify: Vf,
        chain_id: usize,
        process_id: usize,
        census_root: Seq<u64>,
        proof: ProofPackage<P>,
        verifier_data: &VerifierCircuitData<V>,
        res: Result<(), ProofError<E>>,
    ) -> bool {
        &&& census_root != self.root_digest() ==> res == Err::<(), ProofError<E>>(
            ProofError::PublicInputMismatch,
        )
        &&& census_root == self.root_digest() ==> exists|
            p: ProofWithPublicInputs<P>,
            answer: Result<(), E>,
        |
            {
                &&& is_verification_job(p, chain_id, process_id, census_root, proof)
                &&& #[trigger] verify.ensures((verifier_data, &p), answer)
                &&& res == verdict(answer)
            }
    }

    /// Proves that the holder of `sk` is the voter at index `pk_i`, and
    /// derives the nullifier of `sk` for the election.
    ///
    /// The witness is checked first: where `sk` does not open the leaf at
    /// `pk_i`, nothing is handed to the engine. Otherwise the engine is
    /// called once, on the membership circuit and its witness, and its
    /// answer is packaged.
    pub fn gen_proof<P, V, E, Pr: FnOnce(Circuit, PartialWitness) -> Result<(P, V), E>>(
        &self,
        chain_id: usize,
        process_id: usize,
        sk: Digest,
        pk_i: usize,
        prove: Pr,
    ) -> (res: Result<(ProofPackage<P>, VerifierCircuitData<V>), ProofError<E>>)
        requires
            chain_id < ORDER,
            process_id < ORDER,
            forall|c: Circuit, w: PartialWitness|
                self.is_proving_job(c@, w@, chain_id, process_id, sk@, pk_i) ==> prove.requires(
                    (c, w),
                ),
        ensures
            self.proving_outcome(prove, chain_id, process_id, sk@, pk_i, res),
    {
        let path = match self.path_for(pk_i) {
            Ok(path) => path,
            Err(_) => {
                return Err(ProofError::WitnessAssignment);
            },
        };
        let hash = self.hasher();
        let pk = derive_public_key(hash, &sk);
        let top = recompute_root(hash, &pk, pk_i, &path);
        if !digest_eq(&top, &self.root()) {
            return Err(ProofError::WitnessAssignment);
        }
        let nullifier = derive_nullifier(hash, &sk, chain_id, process_id);

        let config = CircuitConfig::standard_recursion_zk_config();
        let mut builder = CircuitBuilder::new(config);
        let mut pw = PartialWitness::new();
        proof {
            use_type_invariant(self);
            self.lemma_leaf_count();
            lemma_log2_of_word(self.leaves().len());
        }

        let targets = self.circuit(&mut builder);
        self.fill_census_targets(&mut pw, chain_id, process_id, sk, pk_i, targets);

        let data = builder.build();
        let common = data.common();
        proof {
            assert(pw@ =~= witness_for(
                membership_layout(0, self.height()).prover_targets(),
                self.membership_values(chain_id, process_id, sk@, pk_i),
            ));
            assert(self.is_proving_job(data@, pw@, chain_id, process_id, sk@, pk_i));
        }
        let ghost job_circuit = data;
        let ghost job_witness = pw;
        let answer = prove(data, pw);
        assert(prove.ensures((job_circuit, job_witness), answer));
        package_proof(nullifier, common, answer)
    }

    /// Checks a membership proof against the election, a census root and
    /// the nullifier of the package.
    ///
    /// A root that is not this census's root is refused before the engine is
    /// asked. Otherwise the engine is asked once, with the ten public values
    /// in their fixed order, and a rejection is handed on.
    pub fn verify_proof<
        P,
        V,
        E,
        Vf: FnOnce(&VerifierCircuitData<V>, &ProofWithPublicInputs<P>) -> Result<(), E>,
    >(
        &self,
        chain_id: usize,
        process_id: usize,
        census_root: Digest,
        proof: ProofPackage<P>,
        verifier_data: &VerifierCircuitData<V>,
        verify: Vf,
    ) -> (res: Result<(), ProofError<E>>)
        requires
            chain_id < ORDER,
            process_id < ORDER,
            forall|p: ProofWithPublicInputs<P>|
                is_verification_job(p, chain_id, process_id, census_root@, proof)
                    ==> verify.requires((verifier_data, &p)),
        ensures
            self.verification_outcome(
                verify,
                chain_id,
                process_id,
                census_root@,
                proof,
                verifier_data,
                res,
            ),
    {
        if !digest_eq(&census_root, &self.root()) {
            return Err(ProofError::PublicInputMismatch);
        }
        let public_inputs = public_inputs(chain_id, process_id, &census_root, &proof.nullifier);
        let job = ProofWithPublicInputs { proof: proof.proof, public_inputs };
        assert(is_verification_job(job, chain_id, process_id, census_root@, proof));
        let answer = verify(verifier_data, &job);
        judge(answer)
    }
}

/// Whether `res` is the engine's `answer` to a proving job, packaged: its
/// proof with the nullifier and the circuit's shape, its verification key
/// with the shape, or its error as it came.
pub open spec fn packaged<P, V, E>(
    nullifier: Seq<u64>,
    common: CommonCircuitData,
    answer: Result<(P, V), E>,
    res: Result<(ProofPackage<P>, VerifierCircuitData<V>), ProofError<E>>,
) -> bool {
    match answer {
        Ok(made) => {
            &&& res is Ok
            &&& res->Ok_0.0.nullifier@ == nullifier
            &&& res->Ok_0.0.proof == made.0
            &&& res->Ok_0.0.common == common
            &&& res->Ok_0.1.common == common
            &&& res->Ok_0.1.verifier_only == made.1
        },
        Err(e) => res == Err::<(ProofPackage<P>, VerifierCircuitData<V>), ProofError<E>>(
            ProofError::Engine(e),
        ),
    }
}

/// Packages the engine's answer to a proving job.
pub fn package_proof<P, V, E>(
    nullifier: Digest,
    common: CommonCircuitData,
    answer: Result<(P, V), E>,
) -> (res: Result<(ProofPackage<P>, VerifierCircuitData<V>), ProofError<E>>)
    ensures
        packaged(nullifier@, common, answer, res),
{
    match answer {
        Ok((proof, verifier_only)) => Ok(
            (
                ProofPackage { nullifier, proof, common },
                VerifierCircuitData { common, verifier_only },
            ),
        ),
        Err(e) => Err(ProofError::Engine(e)),
    }
}

/// The result of a verification, given the engine's answer: a rejection is
/// handed on as it came.
pub open spec fn verdict<E>(answer: Result<(), E>) -> Result<(), ProofError<E>> {
    match answer {
        Ok(_) => Ok(()),
        Err(e) => Err(ProofError::ProofInvalid(e)),
    }
}

/// Turns the engine's answer to a verification into this crate's result.
pub fn judge<E>(answer: Result<(), E>) -> (res: Result<(), ProofError<E>>)
    ensures
        res == verdict(answer),
{
    match answer {
        Ok(_) => Ok(()),
        Err(e) => Err(ProofError::ProofInvalid(e)),
    }
}

/// Whether `job` is what is handed to the proof engine to check `package`:
/// the package's proof, and the election, the root and the package's
/// nullifier as public values.
pub open spec fn is_verification_job<P>(
    job: ProofWithPublicInputs<P>,
    chain_id: usize,
    process_id: usize,
    census_root: Seq<u64>,
    package: ProofPackage<P>,
) -> bool {
    &&& job.proof == package.proof
    &&& job.public_inputs@ == public_inputs_of(
        chain_id as u64,
        process_id as u64,
        census_root,
        package.nullifier@,
    )
}

} // verus!

//! Folding two membership proofs into one.
//!
//! The aggregation circuit holds a place for each of the two proofs and one
//! for the verification key they share, and checks each proof against that
//! key. Nullifiers and census membership are not derived again: the inner
//! proofs attest them.

use vstd::prelude::*;
use crate::census::CensusTree;
use crate::circuit::{standard_config, CircuitConfig, CommonCircuitData};
use crate::field::{Digest, ORDER};
use crate::innerproof::{
    public_inputs, public_inputs_of, ProofError, ProofPackage, ProofWithPublicInputs,
    VerifierCircuitData,
};

verus! {

/// The place of an inner proof in an aggregation circuit.
#[derive(Clone, Copy, Debug, PartialEq, Eq, Structural)]
pub struct ProofWithPublicInputsTarget {
    pub index: usize,
}

/// The place of a verification key in an aggregation circuit.
#[derive(Clone, Copy, Debug, PartialEq, Eq, Structural)]
pub struct VerifierCircuitTarget {
    pub index: usize,
}

/// The constraint that the proof in one place is valid under the key in
/// another, for circuits of the given shape.
#[derive(Clone, Copy, Debug, PartialEq, Eq, Structural)]
pub struct RecursiveCheck {
    pub proof: ProofWithPublicInputsTarget,
    pub verifier_data: VerifierCircuitTarget,
    pub common: CommonCircuitData,
}

/// An aggregation circuit as a mathematical value.
pub struct RecursionView {
    /// The engine's configuration.
    pub config: CircuitConfig,
    /// The number of wires: one for each public value of each inner proof.
    pub num_targets: nat,
    /// For each place of a proof, the shape of the circuit it was made for.
    pub proof_targets: Seq<CommonCircuitData>,
    /// For each place of a key, the height of its Merkle cap.
    pub verifier_targets: Seq<usize>,
    /// The checks, in the order they were recorded.
    pub checks: Seq<RecursiveCheck>,
}

impl RecursionView {
    /// The circuit with nothing in it.
    pub open spec fn empty(config: CircuitConfig) -> RecursionView {
        RecursionView {
            config,
            num_targets: 0,
            proof_targets: Seq::empty(),
            verifier_targets: Seq::empty(),
            checks: Seq::empty(),
        }
    }

    /// This circuit with one more place for a proof of a circuit of shape
    /// `common`, and the wires for that proof's public values.
    pub open spec fn with_proof(self, common: CommonCircuitData) -> RecursionView {
        RecursionView {
            num_targets: self.num_targets + common.num_public_inputs as nat,
            proof_targets: self.proof_targets.push(common),
            ..self
        }
    }

    /// This circuit with one more place for a key.
    pub open spec fn with_verifier_data(self, cap_height: usize) -> RecursionView {
        RecursionView { verifier_targets: self.verifier_targets.push(cap_height), ..self }
    }

    /// This circuit with one more check.
    pub open spec fn with_check(self, check: RecursiveCheck) -> RecursionView {
        RecursionView { checks: self.checks.push(check), ..self }
    }
}

/// The shape of an aggregation circuit: its wires, no public wire of its
/// own, one gate for each check.
pub open spec fn recursion_common(c: RecursionView) -> CommonCircuitData {
    CommonCircuitData {
        config: c.config,
        num_targets: c.num_targets as usize,
        num_public_inputs: 0,
        num_gates: c.checks.len() as usize,
    }
}

/// A finished description of an aggregation circuit.
#[derive(Debug)]
pub struct RecursionCircuit {
    pub config: CircuitConfig,
    pub num_targets: usize,
    pub proof_targets: Vec<CommonCircuitData>,
    pub verifier_targets: Vec<usize>,
    pub checks: Vec<RecursiveCheck>,
}

impl View for RecursionCircuit {
    type V = RecursionView;

    open spec fn view(&self) -> RecursionView {
        RecursionView {
            config: self.config,
            num_targets: self.num_targets as nat,
            proof_targets: self.proof_targets@,
            verifier_targets: self.verifier_targets@,
            checks: self.checks@,
        }
    }
}

impl RecursionCircuit {
    /// The shape of this circuit.
    pub fn common(&self) -> (s: CommonCircuitData)
        ensures
            s == recursion_common(self@),
    {
        CommonCircuitData {
            config: self.config,
            num_targets: self.num_targets,
            num_public_inputs: 0,
            num_gates: self.checks.len(),
        }
    }
}

/// Records an aggregation circuit.
#[derive(Debug)]
pub struct RecursionBuilder {
    pub config: CircuitConfig,
    pub num_targets: usize,
    pub proof_targets: Vec<CommonCircuitData>,
    pub verifier_targets: Vec<usize>,
    pub checks: Vec<RecursiveCheck>,
}

impl View for RecursionBuilder {
    type V = RecursionView;

    open spec fn view(&self) -> RecursionView {
        RecursionView {
            config: self.config,
            num_targets: self.num_targets as nat,
            proof_targets: self.proof_targets@,
            verifier_targets: self.verifier_targets@,
            checks: self.checks@,
        }
    }
}

impl RecursionBuilder {
    /// A builder that has recorded nothing.
    pub fn new(config: CircuitConfig) -> (b: RecursionBuilder)
        ensures
            b@ == RecursionView::empty(config),
    {
        RecursionBuilder {
            config,
            num_targets: 0,
            proof_targets: Vec::new(),
            verifier_targets: Vec::new(),
            checks: Vec::new(),
        }
    }

    /// Adds a place for a proof of a circuit of the given shape.
    pub fn add_virtual_proof_with_pis(&mut self, common: &CommonCircuitData) -> (target:
        ProofWithPublicInputsTarget)
        requires
            old(self).num_targets + common.num_public_inputs <= usize::MAX,
        ensures
            target.index == old(self)@.proof_targets.len(),
            final(self)@ == old(self)@.with_proof(*common),
    {
        let index: usize = self.proof_targets.len();
        self.proof_targets.push(*common);
        self.num_targets = self.num_targets + common.num_public_inputs;
        ProofWithPublicInputsTarget { index }
    }

    /// Adds a place for a verification key whose Merkle cap has the given
    /// height.
    pub fn add_virtual_verifier_data(&mut self, cap_height: usize) -> (target:
        VerifierCircuitTarget)
        ensures
            target.index == old(self)@.verifier_targets.len(),
            final(self)@ == old(self)@.with_verifier_data(cap_height),
    {
        let index: usize = self.verifier_targets.len();
        self.verifier_targets.push(cap_height);
        VerifierCircuitTarget { index }
    }

    /// Constrains the proof in one place to be valid under the key in
    /// another.
    pub fn verify_proof(
        &mut self,
        proof: &ProofWithPublicInputsTarget,
        verifier_data: &VerifierCircuitTarget,
        common: &CommonCircuitData,
    )
        ensures
            final(self)@ == old(self)@.with_check(
                RecursiveCheck { proof: *proof, verifier_data: *verifier_data, common: *common },
            ),
    {
        self.checks.push(
            RecursiveCheck { proof: *proof, verifier_data: *verifier_data, common: *common },
        );
    }

    /// Ends the recording.
    pub fn build(self) -> (c: RecursionCircuit)
        ensures
            c@ == self@,
    {
        RecursionCircuit {
            config: self.config,
            num_targets: self.num_targets,
            proof_targets: self.proof_targets,
            verifier_targets: self.verifier_targets,
            checks: self.checks,
        }
    }
}

/// What a prover supplies for the places of an aggregation circuit.
#[derive(Debug)]
pub struct RecursionWitness<P> {
    /// The proofs, each with its public values, for the places of proofs.
    pub proofs: Vec<(ProofWithPublicInputsTarget, ProofWithPublicInputs<P>)>,
    /// The places that take the verification key handed to the engine.
    pub verifier_data: Vec<VerifierCircuitTarget>,
    /// The places whose Merkle cap is bound to that of the key handed to
    /// the engine.
    pub caps: Vec<VerifierCircuitTarget>,
}

impl<P> RecursionWitness<P> {
    /// A witness that sets nothing.
    pub fn new() -> (w: RecursionWitness<P>)
        ensures
            w.proofs@.len() == 0,
            w.verifier_data@.len() == 0,
            w.caps@.len() == 0,
    {
        RecursionWitness { proofs: Vec::new(), verifier_data: Vec::new(), caps: Vec::new() }
    }

    /// Puts a proof and its public values in the place of a proof.
    pub fn set_proof_with_pis_target(
        &mut self,
        target: &ProofWithPublicInputsTarget,
        proof_with_pis: ProofWithPublicInputs<P>,
    )
        ensures
            final(self).proofs@ == old(self).proofs@.push((*target, proof_with_pis)),
            final(self).verifier_data == old(self).verifier_data,
            final(self).caps == old(self).caps,
    {
        self.proofs.push((*target, proof_with_pis));
    }

    /// Puts the verification key in the place of a key.
    pub fn set_verifier_data_target(&mut self, target: &VerifierCircuitTarget)
        ensures
            final(self).proofs == old(self).proofs,
            final(self).verifier_data@ == old(self).verifier_data@.push(*target),
            final(self).caps == old(self).caps,
    {
        self.verifier_data.push(*target);
    }

    /// Binds the Merkle cap of a place of a key to the cap of the
    /// verification key.
    pub fn set_cap_target(&mut self, target: &VerifierCircuitTarget)
        ensures
            final(self).proofs == old(self).proofs,
            final(self).verifier_data == old(self).verifier_data,
            final(self).caps@ == old(self).caps@.push(*target),
    {
        self.caps.push(*target);
    }
}

/// The aggregation circuit for two proofs of circuits of shape `inner`:
/// a place for each proof, one place for their key, and a check of each
/// proof against that key.
pub open spec fn aggregation_circuit(inner: CommonCircuitData) -> RecursionView {
    let first = ProofWithPublicInputsTarget { index: 0 };
    let second = ProofWithPublicInputsTarget { index: 1 };
    let key = VerifierCircuitTarget { index: 0 };
    RecursionView::empty(standard_config()).with_proof(inner).with_proof(inner).with_verifier_data(
        inner.config.cap_height,
    ).with_check(RecursiveCheck { proof: first, verifier_data: key, common: inner }).with_check(
        RecursiveCheck { proof: second, verifier_data: key, common: inner },
    )
}

/// Whether `circuit` and `witness` are what is handed to the proof engine
/// to aggregate `proof0` and `proof1`: the aggregation circuit for their
/// shape; each proof in its place, in the order given, with the election,
/// the root and its own nullifier as public values; and the key in its
/// place, with its cap bound.
pub open spec fn is_aggregation_job<P>(
    circuit: RecursionCircuit,
    witness: RecursionWitness<P>,
    chain_id: usize,
    process_id: usize,
    census_root: Seq<u64>,
    proof0: ProofPackage<P>,
    proof1: ProofPackage<P>,
    inner: CommonCircuitData,
) -> bool {
    let key = VerifierCircuitTarget { index: 0 };
    &&& circuit@ == aggregation_circuit(inner)
    &&& witness.proofs@.len() == 2
    &&& witness.proofs@[0].0 == ProofWithPublicInputsTarget { index: 0 }
    &&& witness.proofs@[0].1.proof == proof0.proof
    &&& witness.proofs@[0].1.public_inputs@ == public_inputs_of(
        chain_id as u64,
        process_id as u64,
        census_root,
        proof0.nullifier@,
    )
    &&& witness.proofs@[1].0 == ProofWithPublicInputsTarget { index: 1 }
    &&& witness.proofs@[1].1.proof == proof1.proof
    &&& witness.proofs@[1].1.public_inputs@ == public_inputs_of(
        chain_id as u64,
        process_id as u64,
        census_root,
        proof1.nullifier@,
    )
    &&& witness.verifier_data@ == seq![key]
    &&& witness.caps@ == seq![key]
}

/// Whether `res` is the outcome of the self-check `check` of an aggregated
/// proof: the two nullifiers in the order submitted and the proof, or the
/// engine's rejection as it came.
pub open spec fn finished<P, E>(
    nullifier0: Seq<u64>,
    nullifier1: Seq<u64>,
    proof: P,
    check: Result<(), E>,
    res: Result<(Digest, Digest, P), ProofError<E>>,
) -> bool {
    match check {
        Ok(_) => {
            &&& res is Ok
            &&& res->Ok_0.0@ == nullifier0
            &&& res->Ok_0.1@ == nullifier1
            &&& res->Ok_0.2 == proof
        },
        Err(e) => res == Err::<(Digest, Digest, P), ProofError<E>>(ProofError::ProofInvalid(e)),
    }
}

/// Ends an aggregation, given the engine's answer to the self-check of the
/// aggregated proof.
pub fn finish_aggregation<P, E>(
    nullifier0: Digest,
    nullifier1: Digest,
    proof: P,
    check: Result<(), E>,
) -> (res: Result<(Digest, Digest, P), ProofError<E>>)
    ensures
        finished(nullifier0@, nullifier1@, proof, check, res),
{
    match check {
        Ok(_) => Ok((nullifier0, nullifier1, proof)),
        Err(e) => Err(ProofError::ProofInvalid(e)),
    }
}

/// Whether `job` is the self-check of an aggregated proof: the proof `made`
/// by the engine, with no public values.
pub open spec fn is_self_check<P, V>(
    key: VerifierCircuitData<V>,
    job: ProofWithPublicInputs<P>,
    common: CommonCircuitData,
    made: (P, V),
) -> bool {
    &&& key.common == common
    &&& key.verifier_only == made.1
    &&& job.proof == made.0
    &&& job.public_inputs@ == Seq::<u64>::empty()
}

/// Whether `res` is the outcome of an aggregation, given the engine's
/// `answer` to the aggregation job: its failure as it came, or the outcome
/// of the self-check of the proof it made.
pub open spec fn aggregated<
    P,
    V,
    E,
    Vf: FnOnce(&VerifierCircuitData<V>, &ProofWithPublicInputs<P>) -> Result<(), E>,
>(
    verify: Vf,
    nullifier0: Seq<u64>,
    nullifier1: Seq<u64>,
    common: CommonCircuitData,
    answer: Result<(P, V), E>,
    res: Result<(Digest, Digest, P), ProofError<E>>,
) -> bool {
    match answer {
        Ok(made) => exists|
            key: VerifierCircuitData<V>,
            job: ProofWithPublicInputs<P>,
            check: Result<(), E>,
        |
            {
                &&& is_self_check(key, job, common, made)
                &&& #[trigger] verify.ensures((&key, &job), check)
                &&& finished(nullifier0, nullifier1, made.0, check, res)
            },
        Err(e) => res == Err::<(Digest, Digest, P), ProofError<E>>(ProofError::Engine(e)),
    }
}

/// What `aggregate_proofs` returns. Proofs whose circuits do not have the
/// shape of the key's circuit are refused. Otherwise the engine was handed
/// the aggregation circuit and its witness, and `res` follows from its
/// answer and from the self-check of the proof it made.
pub open spec fn aggregation_outcome<
    P,
    V,
    E,
    Ag: FnOnce(RecursionCircuit, RecursionWitness<P>, &VerifierCircuitData<V>) -> Result<(P, V), E>,
    Vf: FnOnce(&VerifierCircuitData<V>, &ProofWithPublicInputs<P>) -> Result<(), E>,
>(
    aggregate: Ag,
    verify: Vf,
    chain_id: usize,
    process_id: usize,
    census_root: Seq<u64>,
    proof0: ProofPackage<P>,
    proof1: ProofPackage<P>,
    verifier_data: &VerifierCircuitData<V>,
    res: Result<(Digest, Digest, P), ProofError<E>>,
) -> bool {
    &&& !same_shapes(proof0, proof1, *verifier_data) ==> res == Err::<
        (Digest, Digest, P),
        ProofError<E>,
    >(ProofError::RecursiveVerificationSetup)
    &&& same_shapes(proof0, proof1, *verifier_data) ==> exists|
        c: RecursionCircuit,
        w: RecursionWitness<P>,
        answer: Result<(P, V), E>,
    |
        {
            &&& is_aggregation_job(
                c,
                w,
                chain_id,
                process_id,
                census_root,
                proof0,
                proof1,
                verifier_data.common,
            )
            &&& #[trigger] aggregate.ensures((c, w, verifier_data), answer)
            &&& aggregated(
                verify,
                proof0.nullifier@,
                proof1.nullifier@,
                recursion_common(aggregation_circuit(verifier_data.common)),
                answer,
                res,
            )
        }
}

impl<H: Fn(Vec<u64>) -> Digest> CensusTree<H> {
    /// Folds two membership proofs made under one verification key into one
    /// proof, and returns it with the two nullifiers in the order submitted.
    ///
    /// Proofs whose circuits do not have the shape of the key's circuit are
    /// refused before the engine is asked. Otherwise the engine is asked
    /// once to prove the aggregation circuit, and once more to check the
    /// proof it made.
    pub fn aggregate_proofs<
        P,
        V,
        E,
        Ag: FnOnce(RecursionCircuit, RecursionWitness<P>, &VerifierCircuitData<V>) -> Result<
            (P, V),
            E,
        >,
        Vf: FnOnce(&VerifierCircuitData<V>, &ProofWithPublicInputs<P>) -> Result<(), E>,
    >(
        chain_id: usize,
        process_id: usize,
        census_root: Digest,
        proof0: ProofPackage<P>,
        proof1: ProofPackage<P>,
        verifier_data: &VerifierCircuitData<V>,
        aggregate: Ag,
        verify: Vf,
    ) -> (res: Result<(Digest, Digest, P), ProofError<E>>)
        requires
            chain_id < ORDER,
            process_id < ORDER,
            2 * verifier_data.common.num_public_inputs <= usize::MAX,
            forall|c: RecursionCircuit, w: RecursionWitness<P>|
                is_aggregation_job(
                    c,
                    w,
                    chain_id,
                    process_id,
                    census_root@,
                    proof0,
                    proof1,
                    verifier_data.common,
                ) ==> aggregate.requires((c, w, verifier_data)),
            forall|key: VerifierCircuitData<V>, job: ProofWithPublicInputs<P>|
                job.public_inputs@ == Seq::<u64>::empty() ==> verify.requires((&key, &job)),
        ensures
            aggregation_outcome(
                aggregate,
                verify,
                chain_id,
                process_id,
                census_root@,
                proof0,
                proof1,
                verifier_data,
                res,
            ),
    {
        if !(proof0.common == verifier_data.common && proof1.common == verifier_data.common) {
            return Err(ProofError::RecursiveVerificationSetup);
        }
        let config = CircuitConfig::standard_recursion_zk_config();
        let mut builder = RecursionBuilder::new(config);
        let mut pw: RecursionWitness<P> = RecursionWitness::new();

        let public_inputs0 = public_inputs(chain_id, process_id, &census_root, &proof0.nullifier);
        let public_inputs1 = public_inputs(chain_id, process_id, &census_root, &proof1.nullifier);
        let nullifier0 = proof0.nullifier;
        let nullifier1 = proof1.nullifier;

        let proof_target0 = builder.add_virtual_proof_with_pis(&verifier_data.common);
        pw.set_proof_with_pis_target(
            &proof_target0,
            ProofWithPublicInputs { proof: proof0.proof, public_inputs: public_inputs0 },
        );
        let proof_target1 = builder.add_virtual_proof_with_pis(&verifier_data.common);
        pw.set_proof_with_pis_target(
            &proof_target1,
            ProofWithPublicInputs { proof: proof1.proof, public_inputs: public_inputs1 },
        );

        let vd_target = builder.add_virtual_verifier_data(verifier_data.common.config.cap_height);
        pw.set_verifier_data_target(&vd_target);
        pw.set_cap_target(&vd_target);

        builder.verify_proof(&proof_target0, &vd_target, &verifier_data.common);
        builder.verify_proof(&proof_target1, &vd_target, &verifier_data.common);

        let data = builder.build();
        let common = data.common();
        proof {
            assert(data@.proof_targets =~= aggregation_circuit(verifier_data.common).proof_targets);
            assert(data@.verifier_targets =~= aggregation_circuit(
                verifier_data.common,
            ).verifier_targets);
            assert(data@.checks =~= aggregation_circuit(verifier_data.common).checks);
            assert(pw.verifier_data@ =~= seq![vd_target]);
            assert(pw.caps@ =~= seq![vd_target]);
            assert(is_aggregation_job(
                data,
                pw,
                chain_id,
                process_id,
                census_root@,
                proof0,
                proof1,
                verifier_data.common,
            ));
        }
        let ghost job_circuit = data;
        let ghost job_witness = pw;
        let answer = aggregate(data, pw, verifier_data);
        assert(aggregate.ensures((job_circuit, job_witness, verifier_data), answer));
        match answer {
            Ok((proof, verifier_only)) => {
                let key = VerifierCircuitData { common, verifier_only };
                let job = ProofWithPublicInputs { proof, public_inputs: Vec::new() };
                let check = verify(&key, &job);
                proof {
                    assert(is_self_check(key, job, common, (job.proof, key.verifier_only)));
                    assert(verify.ensures((&key, &job), check));
                }
                finish_aggregation(nullifier0, nullifier1, job.proof, check)
            },
            Err(e) => Err(ProofError::Engine(e)),
        }
    }
}

/// Whether both proofs were made for circuits of the shape of the key's
/// circuit.
pub open spec fn same_shapes<P, V>(
    proof0: ProofPackage<P>,
    proof1: ProofPackage<P>,
    verifier_data: VerifierCircuitData<V>,
) -> bool {
    proof0.common == verifier_data.common && proof1.common == verifier_data.common
}

} // verus!

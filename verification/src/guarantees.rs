//! What holds of the protocol as a whole.
//!
//! Each statement here relates several functions of this crate, through the
//! outcomes that their contracts promise. What a statement needs of the
//! proof engine or of the hash is said in its hypotheses.

use vstd::prelude::*;
use crate::census::CensusTree;
use crate::circuit::{common_of, Circuit};
use crate::field::{Digest, ORDER};
use crate::hash::{nullifier_of, nullifier_preimage, public_key_of};
use crate::innerproof::{
    is_verification_job, membership_wires, packaged, public_inputs_of,
    standalone_membership_circuit, verdict, ProofError, ProofPackage, ProofWithPublicInputs,
    VerifierCircuitData,
};
use crate::merkle::{lemma_climb_own_path, lemma_log2_of_word, HashFn};
use crate::outerproof::{
    aggregated, aggregation_circuit, aggregation_outcome, finished, is_aggregation_job,
    is_self_check, recursion_common, same_shapes, RecursionCircuit, RecursionWitness,
};
use crate::semantics::{public_values, satisfies};
use crate::statement::{law_circuit_is_complete, membership_assignment};
use crate::witness::{agrees, PartialWitness};

verus! {

/// A proof engine is complete when its verifier accepts what its prover
/// made: if the prover answered a circuit and a witness with a proof and a
/// key, and the wires can be given values that satisfy the circuit and
/// agree with the witness, then the verifier, asked about that proof under
/// that key with the public values of those wires, does not reject.
pub open spec fn engine_is_complete<
    P,
    V,
    E,
    Pr: FnOnce(Circuit, PartialWitness) -> Result<(P, V), E>,
    Vf: FnOnce(&VerifierCircuitData<V>, &ProofWithPublicInputs<P>) -> Result<(), E>,
>(hs: HashFn, prove: Pr, verify: Vf) -> bool {
    forall|
        c: Circuit,
        w: PartialWitness,
        made: Result<(P, V), E>,
        a: Seq<u64>,
        key: VerifierCircuitData<V>,
        job: ProofWithPublicInputs<P>,
        answer: Result<(), E>,
    |
        {
            &&& #[trigger] prove.ensures((c, w), made)
            &&& made is Ok
            &&& #[trigger] satisfies(hs, c@, a)
            &&& agrees(w@, a)
            &&& key.common == common_of(c@)
            &&& key.verifier_only == made->Ok_0.1
            &&& job.proof == made->Ok_0.0
            &&& job.public_inputs@ == public_values(c@, a)
            &&& #[trigger] verify.ensures((&key, &job), answer)
        } ==> answer is Ok
}

/// A verifier is binding when it accepts one proof under one key with one
/// vector of public values only.
pub open spec fn engine_is_binding<
    P,
    V,
    E,
    Vf: FnOnce(&VerifierCircuitData<V>, &ProofWithPublicInputs<P>) -> Result<(), E>,
>(verify: Vf) -> bool {
    forall|
        key: VerifierCircuitData<V>,
        first: ProofWithPublicInputs<P>,
        second: ProofWithPublicInputs<P>,
        first_answer: Result<(), E>,
        second_answer: Result<(), E>,
    |
        {
            &&& #[trigger] verify.ensures((&key, &first), first_answer)
            &&& #[trigger] verify.ensures((&key, &second), second_answer)
            &&& first.proof == second.proof
            &&& first_answer is Ok
            &&& second_answer is Ok
        } ==> first.public_inputs@ == second.public_inputs@
}

/// The ten public values determine the election, the root and the
/// nullifier they were laid out from.
pub proof fn lemma_public_inputs_determine_their_parts(
    chain_id: u64,
    process_id: u64,
    census_root: Seq<u64>,
    nullifier: Seq<u64>,
    other_chain_id: u64,
    other_process_id: u64,
    other_census_root: Seq<u64>,
    other_nullifier: Seq<u64>,
)
    requires
        census_root.len() == 4,
        other_census_root.len() == 4,
        nullifier.len() == other_nullifier.len(),
        public_inputs_of(chain_id, process_id, census_root, nullifier) == public_inputs_of(
            other_chain_id,
            other_process_id,
            other_census_root,
            other_nullifier,
        ),
    ensures
        chain_id == other_chain_id,
        process_id == other_process_id,
        census_root == other_census_root,
        nullifier == other_nullifier,
{
    let left = public_inputs_of(chain_id, process_id, census_root, nullifier);
    let right = public_inputs_of(
        other_chain_id,
        other_process_id,
        other_census_root,
        other_nullifier,
    );
    assert(left[0] == chain_id && right[0] == other_chain_id);
    assert(left[1] == process_id && right[1] == other_process_id);
    assert forall|k: int| 0 <= k < 4 implies census_root[k] == other_census_root[k] by {
        assert(left[2 + k] == census_root[k]);
        assert(right[2 + k] == other_census_root[k]);
    }
    assert(census_root =~= other_census_root);
    assert forall|k: int| 0 <= k < nullifier.len() implies nullifier[k] == other_nullifier[k] by {
        assert(left[6 + k] == nullifier[k]);
        assert(right[6 + k] == other_nullifier[k]);
    }
    assert(nullifier =~= other_nullifier);
}

/// Every voter of the census is admitted: the secret key whose public key
/// is the leaf at an index opens that leaf, so `gen_proof` does not refuse
/// the witness.
pub proof fn law_census_voter_is_admitted<H: Fn(Vec<u64>) -> Digest>(
    tree: &CensusTree<H>,
    sk: Digest,
    pk_i: usize,
)
    requires
        tree.wf(),
        pk_i < tree.leaves().len(),
        tree.leaves()[pk_i as int] == public_key_of(tree.hash_fn(), sk@),
    ensures
        tree.admits(sk@, pk_i),
{
    tree.lemma_leaf_count();
    lemma_climb_own_path(tree.hash_fn(), tree.leaves(), pk_i as nat);
}

/// A prover proves what can be proved: it answers with a proof whenever
/// the wires can be given values that satisfy the circuit and agree with
/// the witness.
pub open spec fn engine_proves<P, V, E, Pr: FnOnce(Circuit, PartialWitness) -> Result<(P, V), E>>(
    hs: HashFn,
    prove: Pr,
) -> bool {
    forall|c: Circuit, w: PartialWitness, made: Result<(P, V), E>, a: Seq<u64>|
        {
            &&& #[trigger] prove.ensures((c, w), made)
            &&& #[trigger] satisfies(hs, c@, a)
            &&& agrees(w@, a)
        } ==> made is Ok
}

/// Every voter of the census obtains a proof: with a prover that proves
/// what can be proved, `gen_proof` succeeds for the secret key whose public
/// key is the leaf at the index given.
pub proof fn law_census_voter_obtains_a_proof<
    H: Fn(Vec<u64>) -> Digest,
    P,
    V,
    E,
    Pr: FnOnce(Circuit, PartialWitness) -> Result<(P, V), E>,
>(
    tree: &CensusTree<H>,
    prove: Pr,
    chain_id: usize,
    process_id: usize,
    sk: Digest,
    pk_i: usize,
    generated: Result<(ProofPackage<P>, VerifierCircuitData<V>), ProofError<E>>,
)
    requires
        tree.wf(),
        chain_id < ORDER,
        process_id < ORDER,
        pk_i < tree.leaves().len(),
        tree.leaves()[pk_i as int] == public_key_of(tree.hash_fn(), sk@),
        engine_proves(tree.hash_fn(), prove),
        tree.proving_outcome(prove, chain_id, process_id, sk@, pk_i, generated),
    ensures
        generated is Ok,
{
    let hs = tree.hash_fn();
    let height = tree.height();
    let nullifier = nullifier_of(hs, sk@, chain_id as u64, process_id as u64);
    let values = tree.membership_values(chain_id, process_id, sk@, pk_i);
    law_census_voter_is_admitted(tree, sk, pk_i);
    let (c, w, made) = choose|c: Circuit, w: PartialWitness, made: Result<(P, V), E>|
        {
            &&& tree.is_proving_job(c@, w@, chain_id, process_id, sk@, pk_i)
            &&& #[trigger] prove.ensures((c, w), made)
            &&& packaged(
                nullifier,
                common_of(standalone_membership_circuit(height)),
                made,
                generated,
            )
        };
    tree.lemma_leaf_count();
    lemma_log2_of_word(tree.leaves().len());
    tree.lemma_digest_sizes(pk_i as nat);
    law_circuit_is_complete(hs, height, values);
    let a = membership_assignment(height, values, nullifier);
    assert(satisfies(hs, c@, a));
    assert(agrees(w@, a));
}

/// A generated proof verifies: with a complete engine, a proof that
/// `gen_proof` returned is accepted by `verify_proof` for the same election
/// and the tree's own root.
pub proof fn law_generated_proof_verifies<
    H: Fn(Vec<u64>) -> Digest,
    P,
    V,
    E,
    Pr: FnOnce(Circuit, PartialWitness) -> Result<(P, V), E>,
    Vf: FnOnce(&VerifierCircuitData<V>, &ProofWithPublicInputs<P>) -> Result<(), E>,
>(
    tree: &CensusTree<H>,
    prove: Pr,
    verify: Vf,
    chain_id: usize,
    process_id: usize,
    sk: Digest,
    pk_i: usize,
    generated: Result<(ProofPackage<P>, VerifierCircuitData<V>), ProofError<E>>,
    verified: Result<(), ProofError<E>>,
)
    requires
        tree.wf(),
        chain_id < ORDER,
        process_id < ORDER,
        engine_is_complete(tree.hash_fn(), prove, verify),
        tree.proving_outcome(prove, chain_id, process_id, sk@, pk_i, generated),
        generated is Ok,
        tree.verification_outcome(
            verify,
            chain_id,
            process_id,
            tree.root_digest(),
            generated->Ok_0.0,
            &generated->Ok_0.1,
            verified,
        ),
    ensures
        verified is Ok,
{
    let hs = tree.hash_fn();
    let height = tree.height();
    let package = generated->Ok_0.0;
    let key = generated->Ok_0.1;
    let nullifier = nullifier_of(hs, sk@, chain_id as u64, process_id as u64);
    let values = tree.membership_values(chain_id, process_id, sk@, pk_i);

    assert(tree.admits(sk@, pk_i));
    let (c, w, made) = choose|c: Circuit, w: PartialWitness, made: Result<(P, V), E>|
        {
            &&& tree.is_proving_job(c@, w@, chain_id, process_id, sk@, pk_i)
            &&& #[trigger] prove.ensures((c, w), made)
            &&& packaged(
                nullifier,
                common_of(standalone_membership_circuit(height)),
                made,
                generated,
            )
        };
    assert(made is Ok);

    let (job, answer) = choose|job: ProofWithPublicInputs<P>, answer: Result<(), E>|
        {
            &&& is_verification_job(job, chain_id, process_id, tree.root_digest(), package)
            &&& #[trigger] verify.ensures((&key, &job), answer)
            &&& verified == verdict(answer)
        };

    tree.lemma_leaf_count();
    lemma_log2_of_word(tree.leaves().len());
    tree.lemma_digest_sizes(pk_i as nat);
    law_circuit_is_complete(hs, height, values);
    let a = membership_assignment(height, values, nullifier);
    assert(satisfies(hs, c@, a));
    assert(agrees(w@, a));
    assert(job.public_inputs@ == public_values(c@, a));
    assert(answer is Ok);
}

/// No public input can be changed: with a binding verifier, where
/// `verify_proof` accepted a proof for an election, a root and a
/// nullifier, it does not accept the same proof once the chain, the
/// process, the root or an element of the nullifier is another.
pub proof fn law_changed_public_input_is_rejected<
    H: Fn(Vec<u64>) -> Digest,
    P,
    V,
    E,
    Vf: FnOnce(&VerifierCircuitData<V>, &ProofWithPublicInputs<P>) -> Result<(), E>,
>(
    tree: &CensusTree<H>,
    verify: Vf,
    verifier_data: &VerifierCircuitData<V>,
    chain_id: usize,
    process_id: usize,
    census_root: Digest,
    proof: ProofPackage<P>,
    accepted: Result<(), ProofError<E>>,
    other_chain_id: usize,
    other_process_id: usize,
    other_census_root: Digest,
    other_proof: ProofPackage<P>,
    other: Result<(), ProofError<E>>,
)
    requires
        chain_id < ORDER,
        process_id < ORDER,
        other_chain_id < ORDER,
        other_process_id < ORDER,
        engine_is_binding(verify),
        tree.verification_outcome(
            verify,
            chain_id,
            process_id,
            census_root@,
            proof,
            verifier_data,
            accepted,
        ),
        accepted is Ok,
        other_proof.proof == proof.proof,
        other_chain_id != chain_id || other_process_id != process_id || other_census_root@
            != census_root@ || other_proof.nullifier@ != proof.nullifier@,
        tree.verification_outcome(
            verify,
            other_chain_id,
            other_process_id,
            other_census_root@,
            other_proof,
            verifier_data,
            other,
        ),
    ensures
        other is Err,
{
    if other is Ok {
        let (job, answer) = choose|job: ProofWithPublicInputs<P>, answer: Result<(), E>|
            {
                &&& is_verification_job(job, chain_id, process_id, census_root@, proof)
                &&& #[trigger] verify.ensures((verifier_data, &job), answer)
                &&& accepted == verdict(answer)
            };
        let (other_job, other_answer) = choose|
            job: ProofWithPublicInputs<P>,
            answer: Result<(), E>,
        |
            {
                &&& is_verification_job(
                    job,
                    other_chain_id,
                    other_process_id,
                    other_census_root@,
                    other_proof,
                )
                &&& #[trigger] verify.ensures((verifier_data, &job), answer)
                &&& other == verdict(answer)
            };
        assert(answer is Ok);
        assert(other_answer is Ok);
        assert(job.public_inputs@ == other_job.public_inputs@);
        lemma_public_inputs_determine_their_parts(
            chain_id as u64,
            process_id as u64,
            census_root@,
            proof.nullifier@,
            other_chain_id as u64,
            other_process_id as u64,
            other_census_root@,
            other_proof.nullifier@,
        );
    }
}

/// The nullifier is determined by the secret key and the election: two
/// proofs generated for one secret key and one election carry the same
/// nullifier, whatever the index and whatever the engine.
pub proof fn law_nullifier_ignores_index<
    H: Fn(Vec<u64>) -> Digest,
    P,
    V,
    E,
    Pr: FnOnce(Circuit, PartialWitness) -> Result<(P, V), E>,
    Qr: FnOnce(Circuit, PartialWitness) -> Result<(P, V), E>,
>(
    tree: &CensusTree<H>,
    chain_id: usize,
    process_id: usize,
    sk: Digest,
    prove: Pr,
    pk_i: usize,
    first: Result<(ProofPackage<P>, VerifierCircuitData<V>), ProofError<E>>,
    prove_again: Qr,
    pk_j: usize,
    second: Result<(ProofPackage<P>, VerifierCircuitData<V>), ProofError<E>>,
)
    requires
        tree.proving_outcome(prove, chain_id, process_id, sk@, pk_i, first),
        tree.proving_outcome(prove_again, chain_id, process_id, sk@, pk_j, second),
        first is Ok,
        second is Ok,
    ensures
        first->Ok_0.0.nullifier@ == second->Ok_0.0.nullifier@,
        first->Ok_0.0.nullifier@ == nullifier_of(
            tree.hash_fn(),
            sk@,
            chain_id as u64,
            process_id as u64,
        ),
{
}

/// The nullifier separates elections: unless the hash collides on the two
/// preimages, one secret key has different nullifiers in two elections
/// that differ in the chain or in the process identifier.
pub proof fn law_nullifier_separates_elections(
    hs: HashFn,
    sk: Seq<u64>,
    chain_id: u64,
    process_id: u64,
    other_chain_id: u64,
    other_process_id: u64,
)
    requires
        chain_id != other_chain_id || process_id != other_process_id,
        hs(nullifier_preimage(sk, chain_id, process_id)) == hs(
            nullifier_preimage(sk, other_chain_id, other_process_id),
        ) ==> nullifier_preimage(sk, chain_id, process_id) == nullifier_preimage(
            sk,
            other_chain_id,
            other_process_id,
        ),
    ensures
        nullifier_of(hs, sk, chain_id, process_id) != nullifier_of(
            hs,
            sk,
            other_chain_id,
            other_process_id,
        ),
{
    let one = nullifier_preimage(sk, chain_id, process_id);
    let other = nullifier_preimage(sk, other_chain_id, other_process_id);
    assert(one[sk.len() as int] == chain_id);
    assert(other[sk.len() as int] == other_chain_id);
    assert(one[sk.len() as int + 1] == process_id);
    assert(other[sk.len() as int + 1] == other_process_id);
}

/// Aggregation keeps the nullifiers: what `aggregate_proofs` returns on
/// success are the nullifiers of the two packages, in the order submitted,
/// with a proof that the engine's verifier was asked about and did not
/// reject.
pub proof fn law_aggregation_keeps_nullifiers<
    P,
    V,
    E,
    Ag: FnOnce(RecursionCircuit, RecursionWitness<P>, &VerifierCircuitData<V>) -> Result<(P, V), E>,
    Vf: FnOnce(&VerifierCircuitData<V>, &ProofWithPublicInputs<P>) -> Result<(), E>,
>(
    aggregate: Ag,
    verify: Vf,
    chain_id: usize,
    process_id: usize,
    census_root: Digest,
    proof0: ProofPackage<P>,
    proof1: ProofPackage<P>,
    verifier_data: &VerifierCircuitData<V>,
    res: Result<(Digest, Digest, P), ProofError<E>>,
)
    requires
        aggregation_outcome(
            aggregate,
            verify,
            chain_id,
            process_id,
            census_root@,
            proof0,
            proof1,
            verifier_data,
            res,
        ),
        res is Ok,
    ensures
        res->Ok_0.0@ == proof0.nullifier@,
        res->Ok_0.1@ == proof1.nullifier@,
        exists|key: VerifierCircuitData<V>, job: ProofWithPublicInputs<P>, check: Result<(), E>|
            {
                &&& job.proof == res->Ok_0.2
                &&& job.public_inputs@ == Seq::<u64>::empty()
                &&& #[trigger] verify.ensures((&key, &job), check)
                &&& check is Ok
            },
{
    assert(same_shapes(proof0, proof1, *verifier_data));
    let (c, w, answer) = choose|
        c: RecursionCircuit,
        w: RecursionWitness<P>,
        answer: Result<(P, V), E>,
    |
        {
            &&& is_aggregation_job(
                c,
                w,
                chain_id,
                process_id,
                census_root@,
                proof0,
                proof1,
                verifier_data.common,
            )
            &&& #[trigger] aggregate.ensures((c, w, verifier_data), answer)
            &&& aggregated(
                verify,
                proof0.nullifier@,
                proof1.nullifier@,
                recursion_common(aggregation_circuit(verifier_data.common)),
                answer,
                res,
            )
        };
    assert(answer is Ok);
    let made = answer->Ok_0;
    let common = recursion_common(aggregation_circuit(verifier_data.common));
    let (key, job, check) = choose|
        key: VerifierCircuitData<V>,
        job: ProofWithPublicInputs<P>,
        check: Result<(), E>,
    |
        {
            &&& is_self_check(key, job, common, made)
            &&& #[trigger] verify.ensures((&key, &job), check)
            &&& finished(proof0.nullifier@, proof1.nullifier@, made.0, check, res)
        };
    assert(check is Ok);
    assert(job.proof == res->Ok_0.2);
}

/// Whether the verifier accepts `proof` under `key` with the given public
/// values.
pub open spec fn accepted<
    P,
    V,
    E,
    Vf: FnOnce(&VerifierCircuitData<V>, &ProofWithPublicInputs<P>) -> Result<(), E>,
>(verify: Vf, key: &VerifierCircuitData<V>, proof: P, public_inputs: Seq<u64>) -> bool {
    exists|job: ProofWithPublicInputs<P>, answer: Result<(), E>|
        {
            &&& job.proof == proof
            &&& job.public_inputs@ == public_inputs
            &&& #[trigger] verify.ensures((key, &job), answer)
            &&& answer is Ok
        }
}

/// A proof engine aggregates under `key` when its aggregator, handed
/// proofs that its verifier accepts under `key`, makes a proof, and its
/// verifier does not reject that proof, with no public values, under the
/// key that came with it.
pub open spec fn engine_aggregates<
    P,
    V,
    E,
    Ag: FnOnce(RecursionCircuit, RecursionWitness<P>, &VerifierCircuitData<V>) -> Result<(P, V), E>,
    Vf: FnOnce(&VerifierCircuitData<V>, &ProofWithPublicInputs<P>) -> Result<(), E>,
>(aggregate: Ag, verify: Vf, key: &VerifierCircuitData<V>) -> bool {
    forall|c: RecursionCircuit, w: RecursionWitness<P>, made: Result<(P, V), E>|
        {
            &&& #[trigger] aggregate.ensures((c, w, key), made)
            &&& forall|i: int|
                0 <= i < w.proofs@.len() ==> accepted(
                    verify,
                    key,
                    (#[trigger] w.proofs@[i]).1.proof,
                    w.proofs@[i].1.public_inputs@,
                )
        } ==> {
            &&& made is Ok
            &&& forall|
                outer: VerifierCircuitData<V>,
                job: ProofWithPublicInputs<P>,
                check: Result<(), E>,
            |
                {
                    &&& outer.verifier_only == made->Ok_0.1
                    &&& job.proof == made->Ok_0.0
                    &&& job.public_inputs@ == Seq::<u64>::empty()
                    &&& #[trigger] verify.ensures((&outer, &job), check)
                } ==> check is Ok
        }
}

/// Valid proofs aggregate: with an engine that aggregates, two proofs of
/// the shape of the key's circuit that the verifier accepts under the key,
/// for one election and one root, are folded into one proof, returned with
/// their nullifiers in the order submitted.
pub proof fn law_valid_proofs_aggregate<
    P,
    V,
    E,
    Ag: FnOnce(RecursionCircuit, RecursionWitness<P>, &VerifierCircuitData<V>) -> Result<(P, V), E>,
    Vf: FnOnce(&VerifierCircuitData<V>, &ProofWithPublicInputs<P>) -> Result<(), E>,
>(
    aggregate: Ag,
    verify: Vf,
    chain_id: usize,
    process_id: usize,
    census_root: Digest,
    proof0: ProofPackage<P>,
    proof1: ProofPackage<P>,
    verifier_data: &VerifierCircuitData<V>,
    res: Result<(Digest, Digest, P), ProofError<E>>,
)
    requires
        same_shapes(proof0, proof1, *verifier_data),
        engine_aggregates(aggregate, verify, verifier_data),
        accepted(
            verify,
            verifier_data,
            proof0.proof,
            public_inputs_of(
                chain_id as u64,
                process_id as u64,
                census_root@,
                proof0.nullifier@,
            ),
        ),
        accepted(
            verify,
            verifier_data,
            proof1.proof,
            public_inputs_of(
                chain_id as u64,
                process_id as u64,
                census_root@,
                proof1.nullifier@,
            ),
        ),
        aggregation_outcome(
            aggregate,
            verify,
            chain_id,
            process_id,
            census_root@,
            proof0,
            proof1,
            verifier_data,
            res,
        ),
    ensures
        res is Ok,
        res->Ok_0.0@ == proof0.nullifier@,
        res->Ok_0.1@ == proof1.nullifier@,
{
    let common = recursion_common(aggregation_circuit(verifier_data.common));
    let (c, w, made) = choose|
        c: RecursionCircuit,
        w: RecursionWitness<P>,
        made: Result<(P, V), E>,
    |
        {
            &&& is_aggregation_job(
                c,
                w,
                chain_id,
                process_id,
                census_root@,
                proof0,
                proof1,
                verifier_data.common,
            )
            &&& #[trigger] aggregate.ensures((c, w, verifier_data), made)
            &&& aggregated(verify, proof0.nullifier@, proof1.nullifier@, common, made, res)
        };
    assert forall|i: int| 0 <= i < w.proofs@.len() implies accepted(
        verify,
        verifier_data,
        (#[trigger] w.proofs@[i]).1.proof,
        w.proofs@[i].1.public_inputs@,
    ) by {
        assert(i == 0 || i == 1);
    }
    assert(made is Ok);
    let (outer, job, check) = choose|
        outer: VerifierCircuitData<V>,
        job: ProofWithPublicInputs<P>,
        check: Result<(), E>,
    |
        {
            &&& is_self_check(outer, job, common, made->Ok_0)
            &&& #[trigger] verify.ensures((&outer, &job), check)
            &&& finished(proof0.nullifier@, proof1.nullifier@, made->Ok_0.0, check, res)
        };
    assert(check is Ok);
}

/// Proofs of different shapes are not aggregated: proofs generated from
/// census trees of different heights are refused, whatever the key and
/// whatever the engine.
pub proof fn law_different_heights_are_refused<
    H: Fn(Vec<u64>) -> Digest,
    P,
    V,
    E,
    Pr: FnOnce(Circuit, PartialWitness) -> Result<(P, V), E>,
    Qr: FnOnce(Circuit, PartialWitness) -> Result<(P, V), E>,
    Ag: FnOnce(RecursionCircuit, RecursionWitness<P>, &VerifierCircuitData<V>) -> Result<(P, V), E>,
    Vf: FnOnce(&VerifierCircuitData<V>, &ProofWithPublicInputs<P>) -> Result<(), E>,
>(
    tree0: &CensusTree<H>,
    prove0: Pr,
    sk0: Digest,
    pk_i0: usize,
    generated0: Result<(ProofPackage<P>, VerifierCircuitData<V>), ProofError<E>>,
    tree1: &CensusTree<H>,
    prove1: Qr,
    sk1: Digest,
    pk_i1: usize,
    generated1: Result<(ProofPackage<P>, VerifierCircuitData<V>), ProofError<E>>,
    chain_id: usize,
    process_id: usize,
    census_root: Digest,
    verifier_data: &VerifierCircuitData<V>,
    aggregate: Ag,
    verify: Vf,
    res: Result<(Digest, Digest, P), ProofError<E>>,
)
    requires
        tree0.wf(),
        tree1.wf(),
        tree0.height() != tree1.height(),
        tree0.proving_outcome(prove0, chain_id, process_id, sk0@, pk_i0, generated0),
        tree1.proving_outcome(prove1, chain_id, process_id, sk1@, pk_i1, generated1),
        generated0 is Ok,
        generated1 is Ok,
        aggregation_outcome(
            aggregate,
            verify,
            chain_id,
            process_id,
            census_root@,
            generated0->Ok_0.0,
            generated1->Ok_0.0,
            verifier_data,
            res,
        ),
    ensures
        res == Err::<(Digest, Digest, P), ProofError<E>>(ProofError::RecursiveVerificationSetup),
{
    tree0.lemma_leaf_count();
    tree1.lemma_leaf_count();
    lemma_log2_of_word(tree0.leaves().len());
    lemma_log2_of_word(tree1.leaves().len());
    let shape0 = common_of(standalone_membership_circuit(tree0.height()));
    let shape1 = common_of(standalone_membership_circuit(tree1.height()));
    assert(generated0->Ok_0.0.common == shape0);
    assert(generated1->Ok_0.0.common == shape1);
    assert(shape0.num_targets == membership_wires(tree0.height()));
    assert(shape1.num_targets == membership_wires(tree1.height()));
    assert(shape0 != shape1);
}

} // verus!

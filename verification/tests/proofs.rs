use census_proofs::census::CensusTree;
use census_proofs::circuit::{Circuit, CircuitBuilder, CircuitConfig, CommonCircuitData, Gate};
use census_proofs::field::{Digest, ORDER};
use census_proofs::innerproof::{
    judge, package_proof, public_inputs, ProofError, ProofPackage, ProofWithPublicInputs,
    VerifierCircuitData,
};
use census_proofs::outerproof::{
    finish_aggregation, ProofWithPublicInputsTarget, RecursionBuilder, RecursionCircuit,
    RecursionWitness, VerifierCircuitTarget,
};
use census_proofs::voter::Voter;
use census_proofs::witness::PartialWitness;

/// A small mixing function that stands in for the commitment hash.
fn toy_hash(input: Vec<u64>) -> Digest {
    let mut state: [u64; 4] = [
        0x9E37_79B9_7F4A_7C15,
        0xBF58_476D_1CE4_E5B9,
        0x94D0_49BB_1331_11EB,
        0x2545_F491_4F6C_DD1D,
    ];
    for (i, x) in input.iter().enumerate() {
        for k in 0..4usize {
            let mixed: u64 = (state[k] ^ x.wrapping_add(i as u64 + 1)).wrapping_mul(0x0100_0000_01B3);
            let next: u64 = state[(k + 1) % 4];
            state[k] = mixed.rotate_left(13 + k as u32) ^ (next >> 7);
        }
    }
    [state[0] % ORDER, state[1] % ORDER, state[2] % ORDER, state[3] % ORDER]
}

/// A secret key drawn from a fixed sequence, so that runs repeat.
fn secret(seed: u64) -> Digest {
    toy_hash(vec![seed, 0xA5A5, 0x5A5A])
}

fn voters(count: u64) -> Vec<Voter> {
    (0..count).map(|i| Voter::new(secret(i), &toy_hash)).collect()
}

fn census(voters: &[Voter]) -> CensusTree<fn(Vec<u64>) -> Digest> {
    let pks: Vec<Digest> = voters.iter().map(|v| v.pk).collect();
    CensusTree::new(pks, toy_hash as fn(Vec<u64>) -> Digest).unwrap()
}

/// A stand-in proof: the public values it was made for and the shape of its
/// circuit.
#[derive(Clone, Debug, PartialEq)]
struct MockProof {
    public_values: Vec<u64>,
    made_for: CommonCircuitData,
}

/// A stand-in verification key.
#[derive(Clone, Debug, PartialEq)]
struct MockKey {
    made_for: CommonCircuitData,
}

fn common(circuit: &Circuit) -> CommonCircuitData {
    circuit.common()
}

fn put(values: &mut [Option<u64>], target: usize, value: u64) -> Result<(), String> {
    match values[target] {
        Some(old) if old != value => Err(format!("wire {} set to {} and to {}", target, old, value)),
        _ => {
            values[target] = Some(value);
            Ok(())
        }
    }
}

fn get(values: &[Option<u64>], target: usize) -> Result<u64, String> {
    values[target].ok_or(format!("wire {} has no value", target))
}

fn get_all(values: &[Option<u64>], targets: &[usize]) -> Result<Vec<u64>, String> {
    targets.iter().map(|t| get(values, *t)).collect()
}

/// Fills in every wire of the circuit from the witness, gate by gate, and
/// returns the values of the public wires; fails where a gate does not hold.
fn solve(circuit: &Circuit, witness: &PartialWitness) -> Result<Vec<u64>, String> {
    let mut values: Vec<Option<u64>> = vec![None; circuit.num_targets];
    for (target, value) in witness.target_values.iter() {
        put(&mut values, *target, *value)?;
    }
    for gate in circuit.gates.iter() {
        match gate {
            Gate::Constant { target, value } => put(&mut values, *target, *value)?,
            Gate::SplitLe { integer, bits } => {
                let x: u64 = get(&values, *integer)?;
                if !bits.is_empty() && bits.len() < 64 && (x >> bits.len()) != 0 {
                    return Err(format!("{} does not fit in {} bits", x, bits.len()));
                }
                for (i, bit) in bits.iter().enumerate() {
                    put(&mut values, *bit, (x >> i) & 1)?;
                }
            }
            Gate::Hash { inputs, output } => {
                let digest: Digest = toy_hash(get_all(&values, inputs)?);
                for k in 0..4usize {
                    put(&mut values, output.elements[k], digest[k])?;
                }
            }
            Gate::MerkleProof { leaf_data, index_bits, root, siblings } => {
                if index_bits.len() != siblings.len() {
                    return Err(String::from("path and index differ in length"));
                }
                let mut state: Vec<u64> = toy_hash(get_all(&values, leaf_data)?).to_vec();
                for (bit, sibling) in index_bits.iter().zip(siblings.iter()) {
                    let other: Vec<u64> = get_all(&values, &sibling.elements)?;
                    let mut both: Vec<u64> = Vec::new();
                    if get(&values, *bit)? == 1 {
                        both.extend(other);
                        both.extend(state);
                    } else {
                        both.extend(state);
                        both.extend(other);
                    }
                    state = toy_hash(both).to_vec();
                }
                if state != get_all(&values, &root.elements)? {
                    return Err(String::from("the path does not lead to the root"));
                }
            }
            Gate::Connect { left, right } => match (values[*left], values[*right]) {
                (Some(a), Some(b)) if a != b => {
                    return Err(format!("wires {} and {} differ", left, right));
                }
                (Some(a), _) => put(&mut values, *right, a)?,
                (None, Some(b)) => put(&mut values, *left, b)?,
                (None, None) => return Err(format!("wires {} and {} have no value", left, right)),
            },
        }
    }
    get_all(&values, &circuit.public_inputs)
}

fn mock_prove(circuit: Circuit, witness: PartialWitness) -> Result<(MockProof, MockKey), String> {
    let public_values: Vec<u64> = solve(&circuit, &witness)?;
    let made_for: CommonCircuitData = common(&circuit);
    Ok((MockProof { public_values, made_for }, MockKey { made_for }))
}

fn mock_verify(
    key: &VerifierCircuitData<MockKey>,
    job: &ProofWithPublicInputs<MockProof>,
) -> Result<(), String> {
    if key.verifier_only.made_for != job.proof.made_for {
        return Err(String::from("the proof was made for another circuit"));
    }
    if job.proof.public_values != job.public_inputs {
        return Err(String::from("the proof was made for other public values"));
    }
    Ok(())
}

fn mock_aggregate(
    circuit: RecursionCircuit,
    witness: RecursionWitness<MockProof>,
    key: &VerifierCircuitData<MockKey>,
) -> Result<(MockProof, MockKey), String> {
    if witness.verifier_data.len() != circuit.verifier_targets.len() {
        return Err(String::from("a key is missing"));
    }
    for check in circuit.checks.iter() {
        let found = witness.proofs.iter().find(|(target, _)| *target == check.proof);
        match found {
            Some((_, inner)) => mock_verify(key, inner)?,
            None => return Err(String::from("a proof is missing")),
        }
    }
    let made_for: CommonCircuitData = circuit.common();
    Ok((MockProof { public_values: Vec::new(), made_for }, MockKey { made_for }))
}

type Package = ProofPackage<MockProof>;
type Key = VerifierCircuitData<MockKey>;

#[test]
fn test_inner_proof() {
    let chain_id: usize = 42;
    let process_id: usize = 3;
    let n: u64 = 256;
    let voters: Vec<Voter> = voters(n);
    let census_tree = census(&voters);

    let census_root: Digest = census_tree.root();

    let i: usize = 84;

    let (proof, vd): (Package, Key) =
        census_tree.gen_proof(chain_id, process_id, voters[i].sk, i, mock_prove).unwrap();
    census_tree
        .verify_proof(chain_id, process_id, census_root, proof, &vd, mock_verify)
        .unwrap();
}

#[test]
fn test_aggregate_2_innerproofs() {
    let chain_id: usize = 42;
    let process_id: usize = 3;
    let n: u64 = 256;
    let voters: Vec<Voter> = voters(n);
    let census_tree = census(&voters);

    let census_root: Digest = census_tree.root();

    let i: usize = 84;
    let (proof0, _vd): (Package, Key) =
        census_tree.gen_proof(chain_id, process_id, voters[i].sk, i, mock_prove).unwrap();

    let i: usize = 101;
    let (proof1, vd): (Package, Key) =
        census_tree.gen_proof(chain_id, process_id, voters[i].sk, i, mock_prove).unwrap();

    let expected0: Digest = proof0.nullifier;
    let expected1: Digest = proof1.nullifier;
    let (n0, n1, proof): (Digest, Digest, MockProof) =
        CensusTree::<fn(Vec<u64>) -> Digest>::aggregate_proofs(
            chain_id,
            process_id,
            census_root,
            proof0,
            proof1,
            &vd,
            mock_aggregate,
            mock_verify,
        )
        .unwrap();
    assert_eq!(n0, expected0);
    assert_eq!(n1, expected1);
    assert_ne!(n0, n1);
    assert!(proof.public_values.is_empty());
}

#[test]
fn every_voter_of_a_small_census_can_prove_and_be_verified() {
    let voters: Vec<Voter> = voters(8);
    let tree = census(&voters);
    for (i, voter) in voters.iter().enumerate() {
        let (package, key): (Package, Key) =
            tree.gen_proof(1, 2, voter.sk, i, mock_prove).unwrap();
        assert_eq!(package.nullifier, toy_hash([voter.sk.to_vec(), vec![1, 2, 0, 0]].concat()));
        assert_eq!(
            package.proof.public_values,
            [vec![1, 2], tree.root().to_vec(), package.nullifier.to_vec()].concat()
        );
        assert_eq!(package.common, key.common);
        assert!(tree.verify_proof(1, 2, tree.root(), package, &key, mock_verify).is_ok());
    }
}

#[test]
fn a_census_of_one_voter_needs_no_path() {
    let voters: Vec<Voter> = voters(1);
    let tree = census(&voters);
    let (package, key): (Package, Key) =
        tree.gen_proof(7, 9, voters[0].sk, 0, mock_prove).unwrap();
    assert_eq!(package.common.num_targets, 21);
    assert!(tree.verify_proof(7, 9, tree.root(), package, &key, mock_verify).is_ok());
}

#[test]
fn a_root_of_another_census_is_refused() {
    let voters: Vec<Voter> = voters(256);
    let tree = census(&voters);
    let others: Vec<Voter> = (1000..1256).map(|i| Voter::new(secret(i), &toy_hash)).collect();
    let other_tree = census(&others);
    assert_ne!(tree.root(), other_tree.root());

    let (package, key): (Package, Key) =
        tree.gen_proof(42, 3, voters[84].sk, 84, mock_prove).unwrap();
    let refused = tree.verify_proof(42, 3, other_tree.root(), package.clone(), &key, mock_verify);
    assert!(matches!(refused, Err(ProofError::PublicInputMismatch)));
    let elsewhere =
        other_tree.verify_proof(42, 3, other_tree.root(), package.clone(), &key, mock_verify);
    assert!(matches!(elsewhere, Err(ProofError::ProofInvalid(_))));
    assert!(tree.verify_proof(42, 3, tree.root(), package, &key, mock_verify).is_ok());
}

#[test]
fn changing_a_public_input_makes_verification_fail() {
    let voters: Vec<Voter> = voters(16);
    let tree = census(&voters);
    let (package, key): (Package, Key) =
        tree.gen_proof(42, 3, voters[5].sk, 5, mock_prove).unwrap();

    let other_chain = tree.verify_proof(43, 3, tree.root(), package.clone(), &key, mock_verify);
    assert!(matches!(other_chain, Err(ProofError::ProofInvalid(_))));
    let other_process = tree.verify_proof(42, 4, tree.root(), package.clone(), &key, mock_verify);
    assert!(matches!(other_process, Err(ProofError::ProofInvalid(_))));
    for k in 0..4usize {
        let mut root: Digest = tree.root();
        root[k] = (root[k] + 1) % ORDER;
        let other_root = tree.verify_proof(42, 3, root, package.clone(), &key, mock_verify);
        assert!(matches!(other_root, Err(ProofError::PublicInputMismatch)));

        let mut altered: Package = package.clone();
        altered.nullifier[k] = (altered.nullifier[k] + 1) % ORDER;
        let other_nullifier = tree.verify_proof(42, 3, tree.root(), altered, &key, mock_verify);
        assert!(matches!(other_nullifier, Err(ProofError::ProofInvalid(_))));
    }
    assert!(tree.verify_proof(42, 3, tree.root(), package, &key, mock_verify).is_ok());
}

#[test]
fn the_engine_is_handed_the_ten_public_values_in_order() {
    let voters: Vec<Voter> = voters(4);
    let tree = census(&voters);
    let (package, key): (Package, Key) =
        tree.gen_proof(42, 3, voters[2].sk, 2, mock_prove).unwrap();
    let root: Digest = tree.root();
    let nullifier: Digest = package.nullifier;
    let seen = |_key: &Key, job: &ProofWithPublicInputs<MockProof>| -> Result<(), String> {
        assert_eq!(
            job.public_inputs,
            vec![
                42,
                3,
                root[0],
                root[1],
                root[2],
                root[3],
                nullifier[0],
                nullifier[1],
                nullifier[2],
                nullifier[3]
            ]
        );
        Ok(())
    };
    assert!(tree.verify_proof(42, 3, root, package, &key, seen).is_ok());
}

#[test]
fn public_values_are_laid_out_in_the_fixed_order() {
    let laid: Vec<u64> = public_inputs(42, 3, &[1, 2, 3, 4], &[5, 6, 7, 8]);
    assert_eq!(laid, vec![42, 3, 1, 2, 3, 4, 5, 6, 7, 8]);
}

#[test]
fn an_index_beyond_the_census_is_a_witness_error() {
    let voters: Vec<Voter> = voters(8);
    let tree = census(&voters);
    let out: Result<(Package, Key), ProofError<String>> =
        tree.gen_proof(42, 3, voters[0].sk, 8, mock_prove);
    assert!(matches!(out, Err(ProofError::WitnessAssignment)));
}

#[test]
fn a_secret_key_that_does_not_open_the_leaf_is_a_witness_error() {
    let voters: Vec<Voter> = voters(8);
    let tree = census(&voters);
    let asked = std::cell::Cell::new(false);
    let prover = |circuit: Circuit, witness: PartialWitness| {
        asked.set(true);
        mock_prove(circuit, witness)
    };
    let out: Result<(Package, Key), ProofError<String>> =
        tree.gen_proof(42, 3, voters[1].sk, 2, prover);
    assert!(matches!(out, Err(ProofError::WitnessAssignment)));
    assert!(!asked.get());
    let stranger: Result<(Package, Key), ProofError<String>> =
        tree.gen_proof(42, 3, secret(999), 2, mock_prove);
    assert!(matches!(stranger, Err(ProofError::WitnessAssignment)));
}

#[test]
fn a_failure_of_the_engine_is_handed_on() {
    let voters: Vec<Voter> = voters(8);
    let tree = census(&voters);
    let failing = |_c: Circuit, _w: PartialWitness| -> Result<(MockProof, MockKey), String> {
        Err(String::from("out of memory"))
    };
    let out: Result<(Package, Key), ProofError<String>> =
        tree.gen_proof(42, 3, voters[3].sk, 3, failing);
    match out {
        Err(ProofError::Engine(e)) => assert_eq!(e, "out of memory"),
        _ => panic!("the engine's failure was not handed on"),
    }
}

#[test]
fn a_rejection_of_the_engine_is_handed_on() {
    let voters: Vec<Voter> = voters(8);
    let tree = census(&voters);
    let (package, key): (Package, Key) =
        tree.gen_proof(42, 3, voters[3].sk, 3, mock_prove).unwrap();
    let rejecting = |_k: &Key, _j: &ProofWithPublicInputs<MockProof>| -> Result<(), String> {
        Err(String::from("bad opening"))
    };
    match tree.verify_proof(42, 3, tree.root(), package, &key, rejecting) {
        Err(ProofError::ProofInvalid(e)) => assert_eq!(e, "bad opening"),
        _ => panic!("the engine's rejection was not handed on"),
    }
}

#[test]
fn the_nullifier_does_not_depend_on_the_index() {
    let mut voters: Vec<Voter> = voters(8);
    voters[6] = voters[1];
    let tree = census(&voters);
    let (first, _): (Package, Key) = tree.gen_proof(42, 3, voters[1].sk, 1, mock_prove).unwrap();
    let (second, _): (Package, Key) = tree.gen_proof(42, 3, voters[1].sk, 6, mock_prove).unwrap();
    let (again, _): (Package, Key) = tree.gen_proof(42, 3, voters[1].sk, 1, mock_prove).unwrap();
    assert_eq!(first.nullifier, second.nullifier);
    assert_eq!(first.nullifier, again.nullifier);
    assert_eq!(first.nullifier, toy_hash([voters[1].sk.to_vec(), vec![42, 3, 0, 0]].concat()));
}

#[test]
fn the_nullifier_differs_from_one_process_to_the_next() {
    let voters: Vec<Voter> = voters(8);
    let tree = census(&voters);
    let (first, _): (Package, Key) = tree.gen_proof(42, 3, voters[4].sk, 4, mock_prove).unwrap();
    let (second, _): (Package, Key) = tree.gen_proof(42, 4, voters[4].sk, 4, mock_prove).unwrap();
    assert_ne!(first.nullifier, second.nullifier);
}

#[test]
fn the_membership_circuit_has_ten_public_wires_and_nine_gates() {
    let voters: Vec<Voter> = voters(4);
    let tree = census(&voters);
    let mut builder: CircuitBuilder =
        CircuitBuilder::new(CircuitConfig::standard_recursion_zk_config());
    let targets = tree.circuit(&mut builder);
    let circuit: Circuit = builder.build();

    assert_eq!(circuit.num_targets, 31);
    assert_eq!(circuit.public_inputs, vec![0, 1, 2, 3, 4, 5, 6, 7, 8, 9]);
    assert_eq!(circuit.gates.len(), 9);
    assert!(circuit.config.zero_knowledge);
    assert_eq!(circuit.config.cap_height, 4);

    assert_eq!(targets.chain_id, 0);
    assert_eq!(targets.process_id, 1);
    assert_eq!(targets.census_root.elements, [2, 3, 4, 5]);
    assert_eq!(targets.merkle_proof.siblings.len(), 2);
    assert_eq!(targets.merkle_proof.siblings[0].elements, [10, 11, 12, 13]);
    assert_eq!(targets.merkle_proof.siblings[1].elements, [14, 15, 16, 17]);
    assert_eq!(targets.sk, [18, 19, 20, 21]);
    assert_eq!(targets.pk_i, 22);

    match &circuit.gates[0] {
        Gate::SplitLe { integer, bits } => {
            assert_eq!(*integer, 22);
            assert_eq!(*bits, vec![23, 24]);
        }
        _ => panic!("the first gate splits the index"),
    }
    match &circuit.gates[1] {
        Gate::Constant { target, value } => assert_eq!((*target, *value), (25, 0)),
        _ => panic!("the second gate is a zero"),
    }
    match &circuit.gates[2] {
        Gate::MerkleProof { leaf_data, index_bits, root, siblings } => {
            assert_eq!(*leaf_data, vec![18, 19, 20, 21, 25, 25, 25, 25]);
            assert_eq!(*index_bits, vec![23, 24]);
            assert_eq!(root.elements, [2, 3, 4, 5]);
            assert_eq!(siblings.len(), 2);
            assert_eq!(siblings[0].elements, [10, 11, 12, 13]);
            assert_eq!(siblings[1].elements, [14, 15, 16, 17]);
        }
        _ => panic!("the third gate checks the path"),
    }
    match &circuit.gates[3] {
        Gate::Constant { target, value } => assert_eq!((*target, *value), (26, 0)),
        _ => panic!("the fourth gate is a zero"),
    }
    match &circuit.gates[4] {
        Gate::Hash { inputs, output } => {
            assert_eq!(*inputs, vec![18, 19, 20, 21, 0, 1, 26, 26]);
            assert_eq!(output.elements, [27, 28, 29, 30]);
        }
        _ => panic!("the fifth gate derives the nullifier"),
    }
    for k in 0..4usize {
        match &circuit.gates[5 + k] {
            Gate::Connect { left, right } => assert_eq!((*left, *right), (6 + k, 27 + k)),
            _ => panic!("the last gates connect the nullifier"),
        }
    }
}

#[test]
fn the_witness_sets_the_election_the_root_the_key_the_index_and_the_path() {
    let voters: Vec<Voter> = voters(4);
    let tree = census(&voters);
    let mut builder: CircuitBuilder =
        CircuitBuilder::new(CircuitConfig::standard_recursion_zk_config());
    let targets = tree.circuit(&mut builder);
    let mut pw: PartialWitness = PartialWitness::new();
    tree.fill_census_targets(&mut pw, 42, 3, voters[2].sk, 2, targets);

    let root: Digest = tree.root();
    let sk: Digest = voters[2].sk;
    let path: Vec<Digest> = tree.path_for(2).unwrap();
    let mut expected: Vec<(usize, u64)> = vec![(0, 42), (1, 3)];
    for k in 0..4usize {
        expected.push((2 + k, root[k]));
    }
    for k in 0..4usize {
        expected.push((18 + k, sk[k]));
    }
    expected.push((22, 2));
    for (level, sibling) in path.iter().enumerate() {
        for k in 0..4usize {
            expected.push((10 + 4 * level + k, sibling[k]));
        }
    }
    assert_eq!(pw.target_values, expected);
}

#[test]
fn the_builder_numbers_wires_in_the_order_they_are_added() {
    let mut builder: CircuitBuilder =
        CircuitBuilder::new(CircuitConfig::standard_recursion_zk_config());
    assert_eq!(builder.add_virtual_target(), 0);
    assert_eq!(builder.add_virtual_targets(3), vec![1, 2, 3]);
    assert_eq!(builder.add_virtual_hash().elements, [4, 5, 6, 7]);
    let hashes = builder.add_virtual_hashes(2);
    assert_eq!(hashes[0].elements, [8, 9, 10, 11]);
    assert_eq!(hashes[1].elements, [12, 13, 14, 15]);
    assert_eq!(builder.zero(), 16);
    assert_eq!(builder.split_le(0, 3), vec![17, 18, 19]);
    assert_eq!(builder.hash_n_to_hash_no_pad(vec![1, 2]).elements, [20, 21, 22, 23]);
    builder.connect(1, 2);
    builder.register_public_input(3);
    builder.register_public_inputs(&[4, 5, 6, 7]);
    let circuit: Circuit = builder.build();
    assert_eq!(circuit.num_targets, 24);
    assert_eq!(circuit.public_inputs, vec![3, 4, 5, 6, 7]);
    assert_eq!(circuit.gates.len(), 4);
    let shape: CommonCircuitData = circuit.common();
    assert_eq!((shape.num_targets, shape.num_public_inputs, shape.num_gates), (24, 5, 4));
}

#[test]
fn the_witness_keeps_values_in_the_order_they_are_set() {
    let mut pw: PartialWitness = PartialWitness::new();
    pw.set_target(7, 70);
    pw.set_target_arr(&[1, 2, 3, 4], [10, 20, 30, 40]);
    let mut builder: CircuitBuilder =
        CircuitBuilder::new(CircuitConfig::standard_recursion_zk_config());
    let wires = builder.add_virtual_hash();
    pw.set_hash_target(wires, [5, 6, 7, 8]);
    assert_eq!(
        pw.target_values,
        vec![(7, 70), (1, 10), (2, 20), (3, 30), (4, 40), (0, 5), (1, 6), (2, 7), (3, 8)]
    );
}

#[test]
fn aggregation_returns_the_nullifiers_in_the_order_submitted() {
    let voters: Vec<Voter> = voters(16);
    let tree = census(&voters);
    let (a, key): (Package, Key) = tree.gen_proof(42, 3, voters[3].sk, 3, mock_prove).unwrap();
    let (b, _): (Package, Key) = tree.gen_proof(42, 3, voters[9].sk, 9, mock_prove).unwrap();
    let (n0, n1, _): (Digest, Digest, MockProof) =
        CensusTree::<fn(Vec<u64>) -> Digest>::aggregate_proofs(
            42,
            3,
            tree.root(),
            a.clone(),
            b.clone(),
            &key,
            mock_aggregate,
            mock_verify,
        )
        .unwrap();
    assert_eq!((n0, n1), (a.nullifier, b.nullifier));
    let (m0, m1, _): (Digest, Digest, MockProof) =
        CensusTree::<fn(Vec<u64>) -> Digest>::aggregate_proofs(
            42,
            3,
            tree.root(),
            b.clone(),
            a.clone(),
            &key,
            mock_aggregate,
            mock_verify,
        )
        .unwrap();
    assert_eq!((m0, m1), (b.nullifier, a.nullifier));
}

#[test]
fn the_engine_is_handed_both_proofs_and_the_key() {
    let voters: Vec<Voter> = voters(4);
    let tree = census(&voters);
    let root: Digest = tree.root();
    let (a, key): (Package, Key) = tree.gen_proof(42, 3, voters[0].sk, 0, mock_prove).unwrap();
    let (b, _): (Package, Key) = tree.gen_proof(42, 3, voters[1].sk, 1, mock_prove).unwrap();
    let inner: CommonCircuitData = key.common;
    let first: Vec<u64> = public_inputs(42, 3, &root, &a.nullifier);
    let second: Vec<u64> = public_inputs(42, 3, &root, &b.nullifier);
    let looking = |circuit: RecursionCircuit, witness: RecursionWitness<MockProof>, key: &Key| {
        assert_eq!(circuit.proof_targets, vec![inner, inner]);
        assert_eq!(circuit.verifier_targets, vec![4]);
        assert_eq!(circuit.num_targets, 20);
        assert_eq!(circuit.checks.len(), 2);
        for (k, check) in circuit.checks.iter().enumerate() {
            assert_eq!(check.proof, ProofWithPublicInputsTarget { index: k });
            assert_eq!(check.verifier_data, VerifierCircuitTarget { index: 0 });
            assert_eq!(check.common, inner);
        }
        assert_eq!(witness.proofs.len(), 2);
        assert_eq!(witness.proofs[0].0, ProofWithPublicInputsTarget { index: 0 });
        assert_eq!(witness.proofs[0].1.public_inputs, first);
        assert_eq!(witness.proofs[1].0, ProofWithPublicInputsTarget { index: 1 });
        assert_eq!(witness.proofs[1].1.public_inputs, second);
        assert_eq!(witness.verifier_data, vec![VerifierCircuitTarget { index: 0 }]);
        assert_eq!(witness.caps, vec![VerifierCircuitTarget { index: 0 }]);
        mock_aggregate(circuit, witness, key)
    };
    let out = CensusTree::<fn(Vec<u64>) -> Digest>::aggregate_proofs(
        42,
        3,
        root,
        a,
        b,
        &key,
        looking,
        mock_verify,
    );
    assert!(out.is_ok());
}

#[test]
fn proofs_from_trees_of_different_heights_are_not_aggregated() {
    let many: Vec<Voter> = voters(256);
    let few: Vec<Voter> = voters(16);
    let tall = census(&many);
    let short = census(&few);
    let (a, tall_key): (Package, Key) =
        tall.gen_proof(42, 3, many[5].sk, 5, mock_prove).unwrap();
    let (b, short_key): (Package, Key) =
        short.gen_proof(42, 3, few[5].sk, 5, mock_prove).unwrap();
    assert_ne!(a.common, b.common);
    let asked = std::cell::Cell::new(false);
    for key in [&tall_key, &short_key] {
        let aggregator =
            |c: RecursionCircuit, w: RecursionWitness<MockProof>, k: &Key| {
                asked.set(true);
                mock_aggregate(c, w, k)
            };
        let out = CensusTree::<fn(Vec<u64>) -> Digest>::aggregate_proofs(
            42,
            3,
            tall.root(),
            a.clone(),
            b.clone(),
            key,
            aggregator,
            mock_verify,
        );
        assert!(matches!(out, Err(ProofError::RecursiveVerificationSetup)));
    }
    assert!(!asked.get());
}

#[test]
fn a_failed_aggregation_is_handed_on() {
    let voters: Vec<Voter> = voters(4);
    let tree = census(&voters);
    let (a, key): (Package, Key) = tree.gen_proof(42, 3, voters[0].sk, 0, mock_prove).unwrap();
    let (b, _): (Package, Key) = tree.gen_proof(42, 3, voters[1].sk, 1, mock_prove).unwrap();
    // The second proof is submitted for another election: its public values do not fit.
    let out = CensusTree::<fn(Vec<u64>) -> Digest>::aggregate_proofs(
        42,
        4,
        tree.root(),
        a.clone(),
        b.clone(),
        &key,
        mock_aggregate,
        mock_verify,
    );
    assert!(matches!(out, Err(ProofError::Engine(_))));

    let rejecting = |_k: &Key, _j: &ProofWithPublicInputs<MockProof>| -> Result<(), String> {
        Err(String::from("self-check failed"))
    };
    let checked = CensusTree::<fn(Vec<u64>) -> Digest>::aggregate_proofs(
        42,
        3,
        tree.root(),
        a,
        b,
        &key,
        mock_aggregate,
        rejecting,
    );
    match checked {
        Err(ProofError::ProofInvalid(e)) => assert_eq!(e, "self-check failed"),
        _ => panic!("the failed self-check was not handed on"),
    }
}

#[test]
fn the_recursion_builder_numbers_places_in_the_order_they_are_added() {
    let config: CircuitConfig = CircuitConfig::standard_recursion_zk_config();
    let inner: CommonCircuitData =
        CommonCircuitData { config, num_targets: 61, num_public_inputs: 10, num_gates: 9 };
    let mut builder: RecursionBuilder = RecursionBuilder::new(config);
    let first_place = builder.add_virtual_proof_with_pis(&inner);
    let second_place = builder.add_virtual_proof_with_pis(&inner);
    let key_place = builder.add_virtual_verifier_data(4);
    builder.verify_proof(&first_place, &key_place, &inner);
    builder.verify_proof(&second_place, &key_place, &inner);
    assert_eq!((first_place.index, second_place.index, key_place.index), (0, 1, 0));
    let circuit: RecursionCircuit = builder.build();
    let shape: CommonCircuitData = circuit.common();
    assert_eq!((shape.num_targets, shape.num_public_inputs, shape.num_gates), (20, 0, 2));
    assert_eq!(shape.config, config);
}

#[test]
fn the_engines_answers_are_packaged_as_they_came() {
    let config: CircuitConfig = CircuitConfig::standard_recursion_zk_config();
    let shape: CommonCircuitData =
        CommonCircuitData { config, num_targets: 21, num_public_inputs: 10, num_gates: 9 };
    let made: Result<(u8, u16), String> = Ok((7, 9));
    let (package, key) = package_proof([1, 2, 3, 4], shape, made).unwrap();
    assert_eq!((package.nullifier, package.proof, package.common), ([1, 2, 3, 4], 7, shape));
    assert_eq!((key.common, key.verifier_only), (shape, 9));
    let failed: Result<(u8, u16), String> = Err(String::from("no"));
    assert!(matches!(package_proof([1, 2, 3, 4], shape, failed), Err(ProofError::Engine(_))));

    let accepted: Result<(), String> = Ok(());
    assert!(judge(accepted).is_ok());
    assert!(matches!(judge(Err(String::from("no"))), Err(ProofError::ProofInvalid(_))));

    let good: Result<(), String> = Ok(());
    let out = finish_aggregation([1, 1, 1, 1], [2, 2, 2, 2], 5u8, good).unwrap();
    assert_eq!(out, ([1, 1, 1, 1], [2, 2, 2, 2], 5));
    let bad: Result<(), String> = Err(String::from("no"));
    assert!(matches!(
        finish_aggregation([1, 1, 1, 1], [2, 2, 2, 2], 5u8, bad),
        Err(ProofError::ProofInvalid(_))
    ));
}

//! Whole-circuit synthesis, commitments, and the proof pipeline's
//! sequencing.

use leela_circuit::columns::{ColumnKind, ConstraintSystem};
use leela_circuit::commitment::CommitmentChip;
use leela_circuit::conv::Conv3DLayerParams;
use leela_circuit::conv_block::ConvBlockChipParams;
use leela_circuit::error::CircuitError;
use leela_circuit::felt::Felt;
use leela_circuit::linear::{
    BatchnormChipParams, DistributedAddFixedChipParams, FcChipParams,
};
use leela_circuit::pipeline::{encode_calldata, encode_instances, PipelineStage, ProofPipeline};
use leela_circuit::policy_head::PolicyHeadChipParams;
use leela_circuit::quantize::SCALING_FACTOR;
use leela_circuit::residual_block::ResidualBlockChipParams;
use leela_circuit::squeeze_excitation::SqueezeExcitationBlockChipParams;
use leela_circuit::tensor::{Matrix, Tensor4};
use leela_circuit::{verify_output_commitment, LeelaCircuit, LeelaParams};

fn zero_kernel(out_depth: usize, in_depth: usize) -> Conv3DLayerParams {
    Conv3DLayerParams {
        kernals: Tensor4 {
            out_depth,
            ker_height: 3,
            ker_width: 3,
            in_depth,
            data: vec![0; out_depth * 9 * in_depth],
        },
    }
}

/// A one-plane tower over two input planes: every weight zero, the
/// policy bias three (in fixed-point), so every output value is three.
fn tiny_circuit() -> LeelaCircuit {
    let sf = SCALING_FACTOR as i128;
    let conv_block = ConvBlockChipParams {
        conv_params: zero_kernel(1, 2),
        bn_params: BatchnormChipParams { scalars: vec![(0, 0)] },
    };
    let residual = ResidualBlockChipParams {
        conv_params: (zero_kernel(1, 1), zero_kernel(1, 1)),
        bn_params: (
            BatchnormChipParams { scalars: vec![(0, 0)] },
            BatchnormChipParams { scalars: vec![(0, 0)] },
        ),
        se_params: SqueezeExcitationBlockChipParams {
            fc_params: (
                FcChipParams {
                    weights: Matrix { rows: 1, cols: 1, data: vec![0] },
                    biases: vec![0],
                },
                FcChipParams {
                    weights: Matrix { rows: 2, cols: 1, data: vec![0, 0] },
                    biases: vec![0, 0],
                },
            ),
        },
    };
    let policy_head = PolicyHeadChipParams {
        conv_1_params: zero_kernel(1, 1),
        conv_2_params: zero_kernel(1, 1),
        bn_params: BatchnormChipParams { scalars: vec![(0, 0)] },
        bias_params: DistributedAddFixedChipParams { scalars: vec![3 * sf] },
        gather_map: vec![0, 1, 63],
    };
    LeelaCircuit {
        input: vec![10, 3],
        params: LeelaParams {
            conv_block,
            residuals: vec![residual],
            policy_head,
        },
        input_hash: None,
        output_hash: None,
    }
}

fn tiny_config() -> leela_circuit::LeelaConfig {
    let mut meta = ConstraintSystem::new();
    // The gating sigmoid's table: half the radix at zero.
    LeelaCircuit::configure(&mut meta, vec![(SCALING_FACTOR / 2) as i128], 0)
}

#[test]
fn configure_draws_a_conflict_free_pool() {
    let mut meta = ConstraintSystem::new();
    let config = LeelaCircuit::configure(&mut meta, vec![0], 0);
    assert_eq!(meta.num_advice, 301);
    assert_eq!(meta.num_fixed, 11);
    assert_eq!(meta.num_instance, 1);
    assert_eq!(meta.num_selectors, 1);
    assert_eq!(meta.num_gates, 17);
    assert_eq!(meta.num_lookups, 6);

    // The one shared range table sits in the first fixed column and is
    // the table of every range-checking chip.
    assert_eq!(config.range_table.column.index, 0);
    assert_eq!(config.conv_block_chip.norm_chip.range_table, config.range_table);
    assert_eq!(config.residual_chip.relu_chip.range_table, config.range_table);
    assert_eq!(
        config.residual_chip.se_chip.sigmoid_chip.first_column.index,
        207
    );
    // The returned instance column is the one the system created.
    assert_eq!(config.output.index, 0);
    assert_eq!(config.output.kind, ColumnKind::Instance);
    // Fresh runs never overlap: each chip starts where the previous
    // ended.
    assert_eq!(config.residual_chip.conv_chip.first_column.index, 0);
    assert_eq!(config.conv_block_chip.bn_chip.first_column.index, 74);
    assert_eq!(config.conv_block_chip.norm_chip.first_column.index, 78);
    assert_eq!(config.conv_block_chip.relu_chip.first_column.index, 86);
    assert_eq!(config.conv_block_chip.conv_chip.first_column.index, 94);
    assert_eq!(config.residual_chip.se_chip.lin_relu_chip.first_column.index, 159);
    assert_eq!(config.residual_chip.residual_add_chip.first_column.index, 215);
    assert_eq!(config.policy_head_chip.dist_add_chip.first_column.index, 227);
    assert_eq!(config.input_unpacking_chip.input.index, 231);
    assert_eq!(config.input_advice.index, 296);
    assert_eq!(config.hash_chip.state.0.index, 297);
}

#[test]
fn configure_is_deterministic() {
    // Two runs on fresh systems perform the identical allocation
    // sequence and yield the identical layout.
    let mut meta_a = ConstraintSystem::new();
    let a = LeelaCircuit::configure(&mut meta_a, vec![7], -1);
    let mut meta_b = ConstraintSystem::new();
    let b = LeelaCircuit::configure(&mut meta_b, vec![7], -1);
    assert_eq!(a.output, b.output);
    assert_eq!(a.input_advice, b.input_advice);
    assert_eq!(a.range_table, b.range_table);
    assert_eq!(a.conv_block_chip.conv_chip, b.conv_block_chip.conv_chip);
    assert_eq!(a.residual_chip.se_chip.fc_chip_1, b.residual_chip.se_chip.fc_chip_1);
    assert_eq!(a.residual_chip.se_chip.fc_chip_2, b.residual_chip.se_chip.fc_chip_2);
    assert_eq!(a.policy_head_chip.dist_add_chip, b.policy_head_chip.dist_add_chip);
    assert_eq!(meta_a.num_advice, meta_b.num_advice);
    assert_eq!(meta_a.num_fixed, meta_b.num_fixed);
}

#[test]
fn tiny_network_forward_pass() {
    let circuit = tiny_circuit();
    let outcome = circuit.synthesize(tiny_config()).unwrap();
    // Zero weights everywhere, a bias of three per output plane: every
    // gathered output value is three.
    assert_eq!(outcome.output, vec![3, 3, 3]);
}

#[test]
fn synthesis_is_idempotent() {
    // Two independent passes over identical parameters and witnesses
    // yield identical outputs and identical public commitments.
    let circuit = tiny_circuit();
    let a = circuit.synthesize(tiny_config()).unwrap();
    let b = circuit.synthesize(tiny_config()).unwrap();
    assert_eq!(a.output, b.output);
    assert_eq!(a.input_hash, b.input_hash);
    assert_eq!(a.output_hash, b.output_hash);
}

#[test]
fn output_commitment_recomputes_outside_the_circuit() {
    // Hashing the plain forward-pass output independently gives exactly
    // the circuit-derived commitment.
    let circuit = tiny_circuit();
    let outcome = circuit.synthesize(tiny_config()).unwrap();
    let chip = CommitmentChip::construct();
    let felts: Vec<Felt> = outcome.output.iter().map(|&x| Felt::from_i64(x as i64)).collect();
    let recomputed = chip.commit(&felts);
    assert_eq!(recomputed, outcome.output_hash);
    assert!(verify_output_commitment(&outcome.output, &outcome.output_hash));

    let input_felts: Vec<Felt> = circuit.input.iter().map(|&x| Felt::from_u64(x)).collect();
    assert_eq!(chip.commit(&input_felts), outcome.input_hash);
}

#[test]
fn mutated_output_fails_the_commitment_check() {
    // A single output value changed after witnessing, without the
    // commitment updated, leaves the instance check unsatisfied.
    let circuit = tiny_circuit();
    let outcome = circuit.synthesize(tiny_config()).unwrap();
    let mut tampered = outcome.output.clone();
    tampered[1] += 1;
    assert!(!verify_output_commitment(&tampered, &outcome.output_hash));
}

#[test]
fn commitment_is_deterministic_and_sensitive() {
    let chip = CommitmentChip::construct();
    let xs: Vec<Felt> = [1u64, 2, 3, 4].iter().map(|&x| Felt::from_u64(x)).collect();
    let d1 = chip.commit(&xs);
    let d2 = chip.commit(&xs);
    assert_eq!(d1, d2);
    // A single differing element changes the digest.
    let ys: Vec<Felt> = [1u64, 2, 5, 4].iter().map(|&x| Felt::from_u64(x)).collect();
    assert_ne!(chip.commit(&ys), d1);
}

#[test]
fn permutation_matches_its_reference_vector() {
    // The underlying two-to-one permutation on (1, 2), against the
    // hash's published value.
    let chip = CommitmentChip::construct();
    let pair = vec![Felt::from_u64(1), Felt::from_u64(2)];
    let d = chip.commit(&pair);
    assert_eq!(d.l0, 0x9e19607a4417189a);
    assert_eq!(d.l1, 0x2a3617f274324551);
    assert_eq!(d.l2, 0x3df64c6b9662e9cf);
    assert_eq!(d.l3, 0x115cc0f5e7d69041);
}

#[test]
fn wrong_shapes_are_configuration_errors() {
    let mut circuit = tiny_circuit();
    // One batch-norm pair too many for the tower's single plane.
    circuit.params.conv_block.bn_params.scalars.push((0, 0));
    assert!(matches!(
        circuit.synthesize(tiny_config()),
        Err(CircuitError::ShapeMismatch)
    ));
}

#[test]
fn instances_hold_the_two_commitments() {
    let mut circuit = tiny_circuit();
    let outcome = circuit.synthesize(tiny_config()).unwrap();
    circuit.input_hash = Some(outcome.input_hash);
    circuit.output_hash = Some(outcome.output_hash);
    assert_eq!(circuit.num_instance(), vec![2]);
    let instances = circuit.instances();
    assert_eq!(instances.len(), 2);
    assert_eq!(instances[0], outcome.input_hash);
    assert_eq!(instances[1], outcome.output_hash);
}

#[test]
fn dumb() {
    let instances = vec![Felt::one(), Felt::zero()];
    let output = encode_instances(&instances);
    println!("output raw: {output:?}");
    assert_eq!(output.len(), 64);
    assert_eq!(output[31], 1);
    assert!(output[32..].iter().all(|&b| b == 0));
}

#[test]
fn calldata_is_instances_then_proof() {
    let instances = vec![Felt::one()];
    let proof = vec![0xaa, 0xbb];
    let calldata = encode_calldata(&instances, &proof);
    assert_eq!(calldata.len(), 34);
    assert_eq!(&calldata[32..], &[0xaa, 0xbb]);
    assert_eq!(calldata[31], 1);
}

#[test]
fn pipeline_runs_stages_in_order() {
    let mut p = ProofPipeline::new();
    assert_eq!(p.current(), Some(PipelineStage::ReferenceString));
    p.step(true);
    assert_eq!(p.current(), Some(PipelineStage::InnerKeys));
    p.step(true);
    assert_eq!(p.current(), Some(PipelineStage::InnerProof));
    p.step(true);
    assert_eq!(p.current(), Some(PipelineStage::Aggregation));
    p.step(true);
    assert_eq!(p.current(), Some(PipelineStage::Artifacts));
    p.step(true);
    assert_eq!(p.current(), None);
    assert_eq!(p.stage, PipelineStage::Done);
}

#[test]
fn pipeline_aborts_on_failure_and_never_retries() {
    let mut p = ProofPipeline::new();
    p.step(true);
    p.step(false);
    assert_eq!(p.stage, PipelineStage::Aborted);
    // A terminal run stays terminal, whatever is reported.
    p.step(true);
    assert_eq!(p.stage, PipelineStage::Aborted);
}

#[test]
fn without_witnesses_keeps_the_standard_shapes() {
    let circuit = tiny_circuit();
    let blank = circuit.without_witnesses();
    assert_eq!(blank.input.len(), 112);
    assert_eq!(blank.params.residuals.len(), 10);
    let cbk = &blank.params.conv_block.conv_params.kernals;
    assert_eq!(
        (cbk.out_depth, cbk.ker_height, cbk.ker_width, cbk.in_depth),
        (128, 3, 3, 112)
    );
    let se = &blank.params.residuals[0].se_params;
    assert_eq!(se.fc_params.0.weights.rows, 32);
    assert_eq!(se.fc_params.1.weights.rows, 256);
    assert_eq!(blank.params.policy_head.conv_2_params.kernals.out_depth, 80);
    assert_eq!(blank.params.policy_head.gather_map, circuit.params.policy_head.gather_map);
    assert!(blank.input_hash.is_none() && blank.output_hash.is_none());
}

//! Arithmetic model of a zero-knowledge circuit for a quantized
//! convolutional network's forward pass.
//!
//! Every layer of the network (convolution, batch normalization,
//! normalization and activation, channel gating, fully-connected
//! projection, output gathering) is expressed over signed fixed-point
//! integers, together with the range decompositions that the circuit's
//! lookup arguments enforce, the column bookkeeping of the constraint
//! system, and the sponge commitments that bind the input and output
//! tensors to two public field elements.

use vstd::prelude::*;

pub mod bits;
pub mod columns;
pub mod commitment;
pub mod conv;
pub mod conv_block;
pub mod error;
pub mod felt;
pub mod input_unpacking;
pub mod linear;
pub mod lookup;
pub mod nonlinear;
pub mod pipeline;
pub mod policy_head;
pub mod quantize;
pub mod residual_block;
pub mod squeeze_excitation;
pub mod tensor;

use crate::bits::bit;
use crate::columns::{Column, ColumnKind, ColumnAllocator, ConstraintSystem};
use crate::commitment::{CommitmentChip, SpongeColumns, sponge_digest, felt_values};
use crate::conv::{Conv3DLayerChip, Conv3DLayerConfig, Conv3DLayerConfigParams, conv_out_height, conv_out_width};
use crate::conv_block::{
    ConvBlockChip,
    ConvBlockChipConfig,
    ConvBlockChipParams,
    ConvBlockConfig,
    conv_block_shapes_ok,
    conv_block_spec,
    CONV_FOLDING,
    CONV_PADDING,
    INPUT_PLANES,
    KERNEL_SIDE,
    PLANE_SIDE,
};
use crate::error::CircuitError;
use crate::felt::{Felt, encode_signed};
use crate::input_unpacking::{InputUnpackingChip, InputUnpackingConfig};
use crate::linear::{
    BatchnormChip,
    BatchnormChipParams,
    ChannelwiseConfig,
    FcChipParams,
    FcConfig,
    pairs,
    pairs_bounded,
    MAX_TERMS,
};
use crate::lookup::DecompTable;
use crate::nonlinear::{Normalize2dChip, ReluNorm2DChip};
use crate::policy_head::{
    PolicyHeadChip,
    PolicyHeadChipConfig,
    PolicyHeadChipParams,
    PolicyHeadConfig,
    policy_head_shapes_ok,
    policy_head_spec,
};
use crate::quantize::{MAX_MAG, SCALING_FACTOR};
use crate::residual_block::{
    ResidualBlockChip,
    ResidualBlockChipConfig,
    ResidualBlockChipParams,
    ResidualBlockConfig,
    residual_block_shapes_ok,
    residual_block_spec,
};
use crate::tensor::{Tensor4, ints, seq_bounded};

verus! {

/// Planes of the residual tower.
pub const TOWER_PLANES: usize = 128;

/// Residual blocks in the tower.
pub const RESIDUAL_BLOCKS: usize = 10;

/// Hidden width of the gating projections.
pub const SE_CHANNELS: usize = 32;

/// Output planes of the policy head.
pub const POLICY_PLANES: usize = 80;

/// All trained constants of one network instance.
pub struct LeelaParams {
    pub conv_block: ConvBlockChipParams,
    pub residuals: Vec<ResidualBlockChipParams>,
    pub policy_head: PolicyHeadChipParams,
}

/// The circuit's full layout: the public instance column, the input
/// column, every block's sub-layout, the shared range table, the
/// permutation chip's columns, and the unpacking chip.
pub struct LeelaConfig {
    pub output: Column,
    pub input_advice: Column,
    pub conv_block_chip: ConvBlockConfig,
    pub residual_chip: ResidualBlockConfig,
    pub policy_head_chip: PolicyHeadConfig,
    pub range_table: DecompTable,
    pub hash_chip: SpongeColumns,
    pub input_unpacking_chip: InputUnpackingConfig,
}

/// The whole network circuit: the packed input planes, the trained
/// constants, and the two public commitments once they are known.
pub struct LeelaCircuit {
    pub input: Vec<u64>,
    pub params: LeelaParams,
    pub input_hash: Option<Felt>,
    pub output_hash: Option<Felt>,
}

/// What one synthesis pass hands back: the raw output values and the
/// two public commitments.  Synthesis returns these explicitly rather
/// than parking them in process-wide slots.
pub struct SynthesisOutcome {
    pub output: Vec<i128>,
    pub input_hash: Felt,
    pub output_hash: Felt,
}

/// A kernel within the machine bounds the folded accumulators assume.
pub open spec fn conv_kernel_ok(k: Tensor4) -> bool {
    &&& k.wf()
    &&& k.bounded(MAX_MAG as int)
    &&& k.out_depth <= 256
    &&& k.in_depth <= 256
    &&& k.ker_height <= 16
    &&& k.ker_width <= 16
}

/// Batch-norm pairs within the decomposition bounds.
pub open spec fn bn_params_ok(p: BatchnormChipParams) -> bool {
    pairs_bounded(pairs(p.scalars@), MAX_MAG as int, MAX_MAG as int * SCALING_FACTOR as int)
}

/// A projection within the decomposition bounds.
pub open spec fn fc_params_ok(p: FcChipParams) -> bool {
    &&& p.weights.wf()
    &&& p.weights.bounded(MAX_MAG as int)
    &&& p.weights.cols <= MAX_TERMS
    &&& seq_bounded(ints(p.biases@), MAX_MAG as int * SCALING_FACTOR as int)
}

/// One residual block's constants within the machine bounds.
pub open spec fn residual_params_ok(p: ResidualBlockChipParams) -> bool {
    &&& conv_kernel_ok(p.conv_params.0.kernals)
    &&& conv_kernel_ok(p.conv_params.1.kernals)
    &&& bn_params_ok(p.bn_params.0)
    &&& bn_params_ok(p.bn_params.1)
    &&& fc_params_ok(p.se_params.fc_params.0)
    &&& fc_params_ok(p.se_params.fc_params.1)
}

/// The whole parameter set within the machine bounds.
pub open spec fn leela_params_ok(params: LeelaParams) -> bool {
    &&& conv_kernel_ok(params.conv_block.conv_params.kernals)
    &&& bn_params_ok(params.conv_block.bn_params)
    &&& forall|i: int|
        0 <= i < params.residuals@.len() ==> residual_params_ok(#[trigger] params.residuals@[i])
    &&& conv_kernel_ok(params.policy_head.conv_1_params.kernals)
    &&& conv_kernel_ok(params.policy_head.conv_2_params.kernals)
    &&& bn_params_ok(params.policy_head.bn_params)
    &&& seq_bounded(
        ints(params.policy_head.bias_params.scalars@),
        MAX_MAG as int * SCALING_FACTOR as int,
    )
}

/// Wiring the configuration guarantees and synthesis relies on.
pub open spec fn config_wf(config: LeelaConfig) -> bool {
    &&& config.conv_block_chip.conv_chip.ker_height == KERNEL_SIDE
    &&& config.conv_block_chip.conv_chip.ker_width == KERNEL_SIDE
    &&& config.conv_block_chip.conv_chip.padding_height == CONV_PADDING
    &&& config.conv_block_chip.conv_chip.padding_width == CONV_PADDING
    &&& config.residual_chip.conv_chip.ker_height == KERNEL_SIDE
    &&& config.residual_chip.conv_chip.ker_width == KERNEL_SIDE
    &&& config.residual_chip.conv_chip.padding_height == CONV_PADDING
    &&& config.residual_chip.conv_chip.padding_width == CONV_PADDING
    &&& config.policy_head_chip.conv_chip.ker_height == KERNEL_SIDE
    &&& config.policy_head_chip.conv_chip.ker_width == KERNEL_SIDE
    &&& config.policy_head_chip.conv_chip.padding_height == CONV_PADDING
    &&& config.policy_head_chip.conv_chip.padding_width == CONV_PADDING
    &&& config.residual_chip.se_chip.sigmoid_chip.wf()
    &&& config.input_unpacking_chip.wf()
    &&& config.input_unpacking_chip.output_width == PLANE_SIDE
    &&& config.input_unpacking_chip.output_height == PLANE_SIDE
}

/// The scaled bits of every packed plane, row-major.
pub open spec fn unpacked_vals(input: Seq<u64>) -> Seq<int> {
    Seq::new((input.len() * 64) as nat, |i: int| bit(input[i / 64], i % 64) * SCALING_FACTOR)
}

/// The residual tower folded over the first `n` blocks.
pub open spec fn fold_residuals(
    s: Seq<int>,
    depth: int,
    h: int,
    w: int,
    rs: Seq<ResidualBlockChipParams>,
    table: Seq<int>,
    lo: int,
    ph: int,
    pw: int,
    n: nat,
) -> Option<Seq<int>>
    decreases n,
{
    if n == 0 {
        Some(s)
    } else {
        match fold_residuals(s, depth, h, w, rs, table, lo, ph, pw, (n - 1) as nat) {
            Some(v) => residual_block_spec(v, depth, h, w, rs[n - 1], table, lo, ph, pw),
            None => None,
        }
    }
}

/// A tower fold that has failed stays failed however many more blocks
/// are applied.
pub proof fn lemma_fold_residuals_none(
    s: Seq<int>,
    depth: int,
    h: int,
    w: int,
    rs: Seq<ResidualBlockChipParams>,
    table: Seq<int>,
    lo: int,
    ph: int,
    pw: int,
    k: nat,
    n: nat,
)
    requires
        k <= n,
        fold_residuals(s, depth, h, w, rs, table, lo, ph, pw, k) is None,
    ensures
        fold_residuals(s, depth, h, w, rs, table, lo, ph, pw, n) is None,
    decreases n,
{
    if n > k {
        lemma_fold_residuals_none(s, depth, h, w, rs, table, lo, ph, pw, k, (n - 1) as nat);
    }
}

/// The whole network: unpack the planes, run the convolution block, fold
/// the residual tower, and run the policy head.  `None` marks an
/// unsatisfiable witness at some stage.
pub open spec fn leela_network_spec(
    input: Seq<u64>,
    params: LeelaParams,
    table: Seq<int>,
    lo: int,
) -> Option<Seq<int>> {
    let pad = CONV_PADDING as int;
    let k = params.conv_block.conv_params.kernals;
    let d0 = k.out_depth as int;
    let h0 = conv_out_height(PLANE_SIDE as int, k, pad);
    let w0 = conv_out_width(PLANE_SIDE as int, k, pad);
    match conv_block_spec(
        unpacked_vals(input),
        input.len() as int,
        PLANE_SIDE as int,
        PLANE_SIDE as int,
        params.conv_block,
        pad,
        pad,
    ) {
        Some(t0) => match fold_residuals(
            t0,
            d0,
            h0,
            w0,
            params.residuals@,
            table,
            lo,
            pad,
            pad,
            params.residuals@.len(),
        ) {
            Some(t1) => policy_head_spec(t1, d0, h0, w0, params.policy_head, pad, pad),
            None => None,
        },
        None => None,
    }
}

/// The field values absorbed for the input commitment: the packed
/// planes themselves.
pub open spec fn input_commit_vals(input: Seq<u64>) -> Seq<nat> {
    Seq::new(input.len(), |i: int| input[i] as nat)
}

/// The field values absorbed for the output commitment: each output's
/// signed embedding.
pub open spec fn encoded_outputs(v: Seq<int>) -> Seq<nat> {
    Seq::new(v.len(), |i: int| encode_signed(v[i]))
}

/// Whether every block's constants fit the configured shapes.
pub open spec fn network_shapes_ok(
    config: LeelaConfig,
    input: Seq<u64>,
    params: LeelaParams,
) -> bool {
    let k = params.conv_block.conv_params.kernals;
    let d0 = k.out_depth as int;
    let h0 = conv_out_height(PLANE_SIDE as int, k, CONV_PADDING as int);
    let w0 = conv_out_width(PLANE_SIDE as int, k, CONV_PADDING as int);
    &&& conv_block_shapes_ok(
        config.conv_block_chip.conv_chip,
        input.len() as int,
        PLANE_SIDE as int,
        PLANE_SIDE as int,
        params.conv_block,
    )
    &&& forall|i: int|
        0 <= i < params.residuals@.len() ==> residual_block_shapes_ok(
            config.residual_chip.conv_chip,
            d0,
            h0,
            w0,
            #[trigger] params.residuals@[i],
        )
    &&& policy_head_shapes_ok(config.policy_head_chip.conv_chip, d0, h0, w0, params.policy_head)
    &&& 1 <= h0 * w0 <= MAX_TERMS
    &&& SCALING_FACTOR as int % (h0 * w0) == 0
    &&& params.policy_head.gather_map@.len() >= 2
}

/// Whether an outcome is the one synthesis owes for the given inputs:
/// the output values are the network's, and the two commitments are the
/// sponge digests of the packed input planes and of the encoded
/// outputs.
pub open spec fn synthesis_matches(
    input: Seq<u64>,
    params: LeelaParams,
    table: Seq<int>,
    lo: int,
    outcome: SynthesisOutcome,
) -> bool {
    &&& leela_network_spec(input, params, table, lo) == Some(ints(outcome.output@))
    &&& outcome.input_hash.wf()
    &&& outcome.output_hash.wf()
    &&& outcome.input_hash.value() == sponge_digest(input_commit_vals(input))
    &&& outcome.output_hash.value() == sponge_digest(encoded_outputs(ints(outcome.output@)))
}

/// The standard architecture's shapes: the fixed tower the circuit is
/// configured for.
pub open spec fn standard_residual_shapes(p: ResidualBlockChipParams) -> bool {
    let k1 = p.conv_params.0.kernals;
    let k2 = p.conv_params.1.kernals;
    &&& k1.out_depth == TOWER_PLANES
    &&& k1.ker_height == KERNEL_SIDE
    &&& k1.ker_width == KERNEL_SIDE
    &&& k1.in_depth == TOWER_PLANES
    &&& k2.out_depth == TOWER_PLANES
    &&& k2.ker_height == KERNEL_SIDE
    &&& k2.ker_width == KERNEL_SIDE
    &&& k2.in_depth == TOWER_PLANES
    &&& p.bn_params.0.scalars@.len() == TOWER_PLANES
    &&& p.bn_params.1.scalars@.len() == TOWER_PLANES
    &&& p.se_params.fc_params.0.weights.rows == SE_CHANNELS
    &&& p.se_params.fc_params.0.weights.cols == TOWER_PLANES
    &&& p.se_params.fc_params.0.biases@.len() == SE_CHANNELS
    &&& p.se_params.fc_params.1.weights.rows == 2 * TOWER_PLANES
    &&& p.se_params.fc_params.1.weights.cols == SE_CHANNELS
    &&& p.se_params.fc_params.1.biases@.len() == 2 * TOWER_PLANES
}

/// The standard architecture: one convolution block from the input
/// planes into the tower, ten residual blocks, and the policy head
/// projecting to the output planes.
pub open spec fn standard_leela_shapes(params: LeelaParams) -> bool {
    let cbk = params.conv_block.conv_params.kernals;
    let pk1 = params.policy_head.conv_1_params.kernals;
    let pk2 = params.policy_head.conv_2_params.kernals;
    &&& cbk.out_depth == TOWER_PLANES
    &&& cbk.ker_height == KERNEL_SIDE
    &&& cbk.ker_width == KERNEL_SIDE
    &&& cbk.in_depth == INPUT_PLANES
    &&& params.conv_block.bn_params.scalars@.len() == TOWER_PLANES
    &&& params.residuals@.len() == RESIDUAL_BLOCKS
    &&& forall|i: int|
        0 <= i < params.residuals@.len() ==> standard_residual_shapes(
            #[trigger] params.residuals@[i],
        )
    &&& pk1.out_depth == TOWER_PLANES
    &&& pk1.ker_height == KERNEL_SIDE
    &&& pk1.ker_width == KERNEL_SIDE
    &&& pk1.in_depth == TOWER_PLANES
    &&& pk2.out_depth == POLICY_PLANES
    &&& pk2.ker_height == KERNEL_SIDE
    &&& pk2.ker_width == KERNEL_SIDE
    &&& pk2.in_depth == TOWER_PLANES
    &&& params.policy_head.bn_params.scalars@.len() == TOWER_PLANES
    &&& params.policy_head.bias_params.scalars@.len() == POLICY_PLANES
}

/// Checks a claimed output commitment against the output values: true
/// exactly when the claimed digest is the sponge digest of the encoded
/// outputs.  A single output value changed after witnessing, without
/// the commitment updated to match, fails this check whenever it
/// changes the digest.
pub fn verify_output_commitment(output: &Vec<i128>, claimed: &Felt) -> (ok: bool)
    requires
        seq_bounded(ints(output@), MAX_MAG as int),
        output@.len() >= 2,
        claimed.wf(),
    ensures
        ok <==> sponge_digest(encoded_outputs(ints(output@))) == claimed.value(),
{
    proof {
        crate::quantize::lemma_quantization_constants();
        vstd::arithmetic::power2::lemma_pow2_strictly_increases(40, 63);
        vstd::arithmetic::power2::lemma2_to64_rest();
    }
    let m = output.len();
    let mut out_felts: Vec<Felt> = Vec::new();
    let mut j: usize = 0;
    while j < m
        invariant
            j <= m,
            m == output@.len(),
            seq_bounded(ints(output@), MAX_MAG as int),
            MAX_MAG < 0x8000000000000000i128,
            out_felts@.len() == j,
            forall|k: int|
                0 <= k < j ==> (#[trigger] out_felts@[k]).wf() && out_felts@[k].value()
                    == encode_signed(ints(output@)[k]),
        decreases m - j,
    {
        let x = output[j];
        proof {
            assert(ints(output@)[j as int] == x as int);
        }
        out_felts.push(Felt::from_i64(x as i64));
        j = j + 1;
    }
    let chip = CommitmentChip::construct();
    let digest = chip.commit(&out_felts);
    proof {
        assert(felt_values(out_felts@) =~= encoded_outputs(ints(output@)));
        if digest.value() == claimed.value() {
            crate::felt::lemma_felt_value_injective(digest, *claimed);
        }
    }
    digest.l0 == claimed.l0 && digest.l1 == claimed.l1 && digest.l2 == claimed.l2 && digest.l3
        == claimed.l3
}

/// Idempotence of synthesis: two passes over identical parameters and
/// witnesses yield identical outputs and identical public commitments.
pub proof fn lemma_synthesis_idempotent(
    input: Seq<u64>,
    params: LeelaParams,
    table: Seq<int>,
    lo: int,
    a: SynthesisOutcome,
    b: SynthesisOutcome,
)
    requires
        synthesis_matches(input, params, table, lo, a),
        synthesis_matches(input, params, table, lo, b),
    ensures
        ints(a.output@) == ints(b.output@),
        a.input_hash == b.input_hash,
        a.output_hash == b.output_hash,
{
    crate::felt::lemma_felt_value_injective(a.input_hash, b.input_hash);
    crate::felt::lemma_felt_value_injective(a.output_hash, b.output_hash);
}

/// Decides whether one residual block's constants fit the configured
/// shapes at the given tensor dimensions.
fn check_residual_shapes(
    r: &ResidualBlockChipParams,
    cc: Conv3DLayerConfig,
    depth: usize,
    h: usize,
    w: usize,
) -> (ok: bool)
    requires
        cc.padding_height == CONV_PADDING,
        cc.padding_width == CONV_PADDING,
        h <= 16,
        w <= 16,
        residual_params_ok(*r),
    ensures
        ok <==> residual_block_shapes_ok(cc, depth as int, h as int, w as int, *r),
{
    let k1 = &r.conv_params.0.kernals;
    let k2 = &r.conv_params.1.kernals;
    if k1.in_depth != depth || k1.ker_height != cc.ker_height || k1.ker_width != cc.ker_width {
        return false;
    }
    if k1.ker_height > h + 2 * cc.padding_height || k1.ker_width > w + 2 * cc.padding_width {
        return false;
    }
    if r.bn_params.0.scalars.len() != k1.out_depth {
        return false;
    }
    let h1 = h + 2 * cc.padding_height + 1 - k1.ker_height;
    let w1 = w + 2 * cc.padding_width + 1 - k1.ker_width;
    if k2.in_depth != k1.out_depth || k2.ker_height != cc.ker_height || k2.ker_width
        != cc.ker_width {
        return false;
    }
    if k2.ker_height > h1 + 2 * cc.padding_height || k2.ker_width > w1 + 2 * cc.padding_width {
        return false;
    }
    if r.bn_params.1.scalars.len() != k2.out_depth {
        return false;
    }
    let f = &r.se_params.fc_params;
    if f.0.weights.cols != k2.out_depth || f.0.biases.len() != f.0.weights.rows
        || f.1.weights.cols != f.0.weights.rows || f.1.biases.len() != f.1.weights.rows
        || f.1.weights.rows % 2 != 0 || f.1.weights.rows / 2 != k2.out_depth {
        return false;
    }
    let h2 = h1 + 2 * cc.padding_height + 1 - k2.ker_height;
    let w2 = w1 + 2 * cc.padding_width + 1 - k2.ker_width;
    if k2.out_depth != depth || h2 != h || w2 != w {
        return false;
    }
    true
}

/// Decides whether the policy head's constants fit the configured shapes
/// at the given tensor dimensions.
fn check_policy_shapes(
    p: &PolicyHeadChipParams,
    cc: Conv3DLayerConfig,
    depth: usize,
    h: usize,
    w: usize,
) -> (ok: bool)
    requires
        cc.padding_height == CONV_PADDING,
        cc.padding_width == CONV_PADDING,
        h <= 16,
        w <= 16,
        conv_kernel_ok(p.conv_1_params.kernals),
        conv_kernel_ok(p.conv_2_params.kernals),
    ensures
        ok <==> policy_head_shapes_ok(cc, depth as int, h as int, w as int, *p),
{
    let k1 = &p.conv_1_params.kernals;
    let k2 = &p.conv_2_params.kernals;
    if k1.in_depth != depth || k1.ker_height != cc.ker_height || k1.ker_width != cc.ker_width {
        return false;
    }
    if k1.ker_height > h + 2 * cc.padding_height || k1.ker_width > w + 2 * cc.padding_width {
        return false;
    }
    if p.bn_params.scalars.len() != k1.out_depth {
        return false;
    }
    let h1 = h + 2 * cc.padding_height + 1 - k1.ker_height;
    let w1 = w + 2 * cc.padding_width + 1 - k1.ker_width;
    if k2.in_depth != k1.out_depth || k2.ker_height != cc.ker_height || k2.ker_width
        != cc.ker_width {
        return false;
    }
    if k2.ker_height > h1 + 2 * cc.padding_height || k2.ker_width > w1 + 2 * cc.padding_width {
        return false;
    }
    if p.bias_params.scalars.len() != k2.out_depth {
        return false;
    }
    let h2 = h1 + 2 * cc.padding_height + 1 - k2.ker_height;
    let w2 = w1 + 2 * cc.padding_width + 1 - k2.ker_width;
    proof {
        assert(0 <= k2.out_depth as int * h2 as int <= 256 * 22 && 0 <= k2.out_depth as int
            * h2 as int * w2 as int <= 256 * 22 * 22) by (nonlinear_arith)
            requires
                0 <= k2.out_depth as int <= 256,
                0 <= h2 as int <= 22,
                0 <= w2 as int <= 22,
        ;
    }
    let flat_len = k2.out_depth * h2 * w2;
    let ghost spec_flat: int = {
        let h1s = conv_out_height(h as int, p.conv_1_params.kernals, cc.padding_height as int);
        let w1s = conv_out_width(w as int, p.conv_1_params.kernals, cc.padding_width as int);
        p.conv_2_params.kernals.out_depth * conv_out_height(
            h1s,
            p.conv_2_params.kernals,
            cc.padding_height as int,
        ) * conv_out_width(w1s, p.conv_2_params.kernals, cc.padding_width as int)
    };
    proof {
        assert(flat_len as int == spec_flat);
    }
    let mut gi: usize = 0;
    while gi < p.gather_map.len()
        invariant
            gi <= p.gather_map@.len(),
            flat_len as int == spec_flat,
            spec_flat == ({
                let h1s = conv_out_height(
                    h as int,
                    p.conv_1_params.kernals,
                    cc.padding_height as int,
                );
                let w1s = conv_out_width(
                    w as int,
                    p.conv_1_params.kernals,
                    cc.padding_width as int,
                );
                p.conv_2_params.kernals.out_depth * conv_out_height(
                    h1s,
                    p.conv_2_params.kernals,
                    cc.padding_height as int,
                ) * conv_out_width(w1s, p.conv_2_params.kernals, cc.padding_width as int)
            }),
            forall|i: int| 0 <= i < gi ==> (#[trigger] p.gather_map@[i]) < flat_len,
        decreases p.gather_map@.len() - gi,
    {
        if p.gather_map[gi] >= flat_len {
            proof {
                if policy_head_shapes_ok(cc, depth as int, h as int, w as int, *p) {
                    assert(p.gather_map@[gi as int] < spec_flat);
                    assert(false);
                }
            }
            return false;
        }
        gi = gi + 1;
    }
    true
}

/// A vector of a given length, all zeroes.
fn zero_vec(n: usize) -> (r: Vec<i128>)
    ensures
        r@.len() == n,
        forall|i: int| 0 <= i < n ==> #[trigger] r@[i] == 0i128,
{
    let mut r: Vec<i128> = Vec::new();
    let mut i: usize = 0;
    while i < n
        invariant
            i <= n,
            r@.len() == i,
            forall|j: int| 0 <= j < i ==> #[trigger] r@[j] == 0i128,
        decreases n - i,
    {
        r.push(0);
        i = i + 1;
    }
    r
}

/// A vector of zero pairs of a given length.
fn zero_pairs(n: usize) -> (r: Vec<(i128, i128)>)
    ensures
        r@.len() == n,
        forall|i: int| 0 <= i < n ==> #[trigger] r@[i] == (0i128, 0i128),
{
    let mut r: Vec<(i128, i128)> = Vec::new();
    let mut i: usize = 0;
    while i < n
        invariant
            i <= n,
            r@.len() == i,
            forall|j: int| 0 <= j < i ==> #[trigger] r@[j] == (0i128, 0i128),
        decreases n - i,
    {
        r.push((0, 0));
        i = i + 1;
    }
    r
}

/// A kernel of the standard shape with every weight still unknown,
/// stood in by zero.
fn blank_kernel(out_depth: usize, in_depth: usize) -> (r: crate::conv::Conv3DLayerParams)
    requires
        out_depth <= 256,
        in_depth <= 256,
    ensures
        r.kernals.out_depth == out_depth,
        r.kernals.ker_height == KERNEL_SIDE,
        r.kernals.ker_width == KERNEL_SIDE,
        r.kernals.in_depth == in_depth,
        conv_kernel_ok(r.kernals),
{
    proof {
        assert(out_depth as int * 3 * 3 * in_depth as int <= 256 * 9 * 256) by (nonlinear_arith)
            requires
                0 <= out_depth as int <= 256,
                0 <= in_depth as int <= 256,
        ;
    }
    let data = zero_vec(out_depth * KERNEL_SIDE * KERNEL_SIDE * in_depth);
    let kernals = Tensor4 {
        out_depth,
        ker_height: KERNEL_SIDE,
        ker_width: KERNEL_SIDE,
        in_depth,
        data,
    };
    crate::conv::Conv3DLayerParams { kernals }
}

/// A projection of the standard shape with every weight still unknown.
fn blank_fc(rows: usize, cols: usize) -> (r: FcChipParams)
    requires
        rows <= 1024,
        cols <= 1024,
    ensures
        r.weights.rows == rows,
        r.weights.cols == cols,
        r.biases@.len() == rows,
        fc_params_ok(r),
{
    proof {
        assert(rows as int * cols as int <= 1024 * 1024) by (nonlinear_arith)
            requires
                0 <= rows as int <= 1024,
                0 <= cols as int <= 1024,
        ;
    }
    let weights = crate::tensor::Matrix { rows, cols, data: zero_vec(rows * cols) };
    let biases = zero_vec(rows);
    FcChipParams { weights, biases }
}

/// One residual block's constants, shapes fixed, weights still unknown.
fn blank_residual_params() -> (r: ResidualBlockChipParams)
    ensures
        standard_residual_shapes(r),
        residual_params_ok(r),
{
    ResidualBlockChipParams {
        conv_params: (
            blank_kernel(TOWER_PLANES, TOWER_PLANES),
            blank_kernel(TOWER_PLANES, TOWER_PLANES),
        ),
        bn_params: (
            BatchnormChipParams { scalars: zero_pairs(TOWER_PLANES) },
            BatchnormChipParams { scalars: zero_pairs(TOWER_PLANES) },
        ),
        se_params: crate::squeeze_excitation::SqueezeExcitationBlockChipParams {
            fc_params: (
                blank_fc(SE_CHANNELS, TOWER_PLANES),
                blank_fc(2 * TOWER_PLANES, SE_CHANNELS),
            ),
        },
    }
}

/// Copies a gather map.
fn copy_gather_map(map: &Vec<usize>) -> (r: Vec<usize>)
    ensures
        r@ == map@,
{
    let mut r: Vec<usize> = Vec::new();
    let mut i: usize = 0;
    while i < map.len()
        invariant
            i <= map@.len(),
            r@ =~= map@.take(i as int),
        decreases map@.len() - i,
    {
        r.push(map[i]);
        i = i + 1;
    }
    proof {
        assert(map@.take(map@.len() as int) =~= map@);
    }
    r
}

impl LeelaCircuit {
    /// A copy of the circuit with every witness still unknown: the
    /// standard architecture's shapes, zeroes standing in for the
    /// not-yet-known weights and inputs, and the configuration-time
    /// gather map carried over.  This is what key generation sees.
    pub fn without_witnesses(&self) -> (r: LeelaCircuit)
        ensures
            standard_leela_shapes(r.params),
            leela_params_ok(r.params),
            r.input@.len() == INPUT_PLANES,
            r.input_hash is None,
            r.output_hash is None,
            r.params.policy_head.gather_map@ == self.params.policy_head.gather_map@,
    {
        let conv_block = ConvBlockChipParams {
            conv_params: blank_kernel(TOWER_PLANES, INPUT_PLANES),
            bn_params: BatchnormChipParams { scalars: zero_pairs(TOWER_PLANES) },
        };

        let mut residuals: Vec<ResidualBlockChipParams> = Vec::new();
        let mut i: usize = 0;
        while i < RESIDUAL_BLOCKS
            invariant
                i <= RESIDUAL_BLOCKS,
                residuals@.len() == i,
                forall|j: int|
                    0 <= j < i ==> standard_residual_shapes(#[trigger] residuals@[j])
                        && residual_params_ok(residuals@[j]),
            decreases RESIDUAL_BLOCKS - i,
        {
            residuals.push(blank_residual_params());
            i = i + 1;
        }

        let policy_head = PolicyHeadChipParams {
            conv_1_params: blank_kernel(TOWER_PLANES, TOWER_PLANES),
            conv_2_params: blank_kernel(POLICY_PLANES, TOWER_PLANES),
            bn_params: BatchnormChipParams { scalars: zero_pairs(TOWER_PLANES) },
            bias_params: crate::linear::DistributedAddFixedChipParams {
                scalars: zero_vec(POLICY_PLANES),
            },
            gather_map: copy_gather_map(&self.params.policy_head.gather_map),
        };
        let params = LeelaParams { conv_block, residuals, policy_head };

        let mut input: Vec<u64> = Vec::new();
        let mut i: usize = 0;
        while i < INPUT_PLANES
            invariant
                i <= INPUT_PLANES,
                input@.len() == i,
            decreases INPUT_PLANES - i,
        {
            input.push(0);
            i = i + 1;
        }

        LeelaCircuit { input, params, input_hash: None, output_hash: None }
    }

    /// The number of public instance values per column: exactly the two
    /// commitments.
    pub fn num_instance(&self) -> (r: Vec<usize>)
        ensures
            r@.len() == 1,
            r@[0] == 2,
    {
        let mut r: Vec<usize> = Vec::new();
        r.push(2);
        r
    }

    /// The public instance values: the input commitment, then the
    /// output commitment.
    pub fn instances(&self) -> (r: Vec<Felt>)
        requires
            self.input_hash is Some,
            self.output_hash is Some,
        ensures
            r@.len() == 2,
            r@[0] == self.input_hash.unwrap(),
            r@[1] == self.output_hash.unwrap(),
    {
        let mut r: Vec<Felt> = Vec::new();
        match &self.input_hash {
            Some(h) => {
                r.push(*h);
            },
            None => {
                proof {
                    assert(false);
                }
            },
        }
        match &self.output_hash {
            Some(h) => {
                r.push(*h);
            },
            None => {
                proof {
                    assert(false);
                }
            },
        }
        r
    }

    /// Validates every block's constants against the configured shapes:
    /// the configuration-time check that catches a shape defect before
    /// any witness work.
    fn check_network_shapes(&self, config: &LeelaConfig) -> (ok: bool)
        requires
            config_wf(*config),
            leela_params_ok(self.params),
            2 <= self.input@.len() <= 256,
        ensures
            ok <==> network_shapes_ok(*config, self.input@, self.params),
    {
        let k = &self.params.conv_block.conv_params.kernals;
        let cbc = config.conv_block_chip.conv_chip;
        if k.in_depth != self.input.len() || k.ker_height != cbc.ker_height || k.ker_width
            != cbc.ker_width {
            return false;
        }
        if k.ker_height > PLANE_SIDE + 2 * cbc.padding_height || k.ker_width > PLANE_SIDE + 2
            * cbc.padding_width {
            return false;
        }
        if self.params.conv_block.bn_params.scalars.len() != k.out_depth {
            return false;
        }
        let d0 = k.out_depth;
        let h0 = PLANE_SIDE + 2 * cbc.padding_height + 1 - k.ker_height;
        let w0 = PLANE_SIDE + 2 * cbc.padding_width + 1 - k.ker_width;
        proof {
            assert(h0 as int == conv_out_height(
                PLANE_SIDE as int,
                self.params.conv_block.conv_params.kernals,
                CONV_PADDING as int,
            ));
            assert(w0 as int == conv_out_width(
                PLANE_SIDE as int,
                self.params.conv_block.conv_params.kernals,
                CONV_PADDING as int,
            ));
        }
        let hw = h0 * w0;
        if hw == 0 || hw > MAX_TERMS {
            return false;
        }
        if SCALING_FACTOR % (hw as u64) != 0 {
            return false;
        }
        if self.params.policy_head.gather_map.len() < 2 {
            return false;
        }
        let rcc = config.residual_chip.conv_chip;
        let n_res = self.params.residuals.len();
        let mut i: usize = 0;
        while i < n_res
            invariant
                i <= n_res,
                n_res == self.params.residuals@.len(),
                leela_params_ok(self.params),
                rcc == config.residual_chip.conv_chip,
                rcc.padding_height == CONV_PADDING,
                rcc.padding_width == CONV_PADDING,
                d0 == self.params.conv_block.conv_params.kernals.out_depth,
                h0 <= 16,
                w0 <= 16,
                h0 as int == conv_out_height(
                    PLANE_SIDE as int,
                    self.params.conv_block.conv_params.kernals,
                    CONV_PADDING as int,
                ),
                w0 as int == conv_out_width(
                    PLANE_SIDE as int,
                    self.params.conv_block.conv_params.kernals,
                    CONV_PADDING as int,
                ),
                forall|j: int|
                    0 <= j < i ==> residual_block_shapes_ok(
                        rcc,
                        d0 as int,
                        h0 as int,
                        w0 as int,
                        #[trigger] self.params.residuals@[j],
                    ),
            decreases n_res - i,
        {
            if !check_residual_shapes(&self.params.residuals[i], rcc, d0, h0, w0) {
                return false;
            }
            i = i + 1;
        }
        check_policy_shapes(
            &self.params.policy_head,
            config.policy_head_chip.conv_chip,
            d0,
            h0,
            w0,
        )
    }

    /// Runs one synthesis pass: assigns the packed planes, computes and
    /// constrains the input commitment, unpacks the planes, runs the
    /// convolution block, folds every residual block in sequence, runs
    /// the policy head, and computes the output commitment.  The raw
    /// outputs and both commitments come back explicitly.
    #[verifier::rlimit(100)]
    pub fn synthesize(&self, config: LeelaConfig) -> (res: Result<SynthesisOutcome, CircuitError>)
        requires
            config_wf(config),
            leela_params_ok(self.params),
            2 <= self.input@.len() <= 256,
        ensures
            res is Ok <==> (network_shapes_ok(config, self.input@, self.params)
                && leela_network_spec(
                self.input@,
                self.params,
                ints(config.residual_chip.se_chip.sigmoid_chip.table@),
                config.residual_chip.se_chip.sigmoid_chip.lo as int,
            ) is Some),
            !network_shapes_ok(config, self.input@, self.params) ==> res == Err::<
                SynthesisOutcome,
                CircuitError,
            >(CircuitError::ShapeMismatch),
            res matches Ok(outcome) ==> {
                &&& synthesis_matches(
                    self.input@,
                    self.params,
                    ints(config.residual_chip.se_chip.sigmoid_chip.table@),
                    config.residual_chip.se_chip.sigmoid_chip.lo as int,
                    outcome,
                )
                &&& seq_bounded(ints(outcome.output@), MAX_MAG as int)
                &&& outcome.output@.len() == self.params.policy_head.gather_map@.len()
            },
            network_shapes_ok(config, self.input@, self.params) && leela_network_spec(
                self.input@,
                self.params,
                ints(config.residual_chip.se_chip.sigmoid_chip.table@),
                config.residual_chip.se_chip.sigmoid_chip.lo as int,
            ) is None ==> res == Err::<SynthesisOutcome, CircuitError>(
                CircuitError::Unsatisfiable,
            ),
    {
        let ghost cfg = config;
        let ghost table = ints(config.residual_chip.se_chip.sigmoid_chip.table@);
        let ghost lo = config.residual_chip.se_chip.sigmoid_chip.lo as int;
        let ghost k0 = self.params.conv_block.conv_params.kernals;
        let ghost d0 = k0.out_depth as int;
        let ghost h0 = conv_out_height(PLANE_SIDE as int, k0, CONV_PADDING as int);
        let ghost w0 = conv_out_width(PLANE_SIDE as int, k0, CONV_PADDING as int);

        if !self.check_network_shapes(&config) {
            return Err(CircuitError::ShapeMismatch);
        }
        let conv_block_chip = ConvBlockChip::construct(config.conv_block_chip);
        let residual_chip = ResidualBlockChip::construct(config.residual_chip);
        let policy_head_chip = PolicyHeadChip::construct(config.policy_head_chip);
        let input_unpacking_chip = InputUnpackingChip::construct(config.input_unpacking_chip);
        let commitment_chip = CommitmentChip::construct();

        // Assign the raw input and fold it into the input commitment.
        let n = self.input.len();
        let mut input_felts: Vec<Felt> = Vec::new();
        let mut i: usize = 0;
        while i < n
            invariant
                i <= n,
                n == self.input@.len(),
                input_felts@.len() == i,
                forall|j: int|
                    0 <= j < i ==> (#[trigger] input_felts@[j]).wf() && input_felts@[j].value()
                        == self.input@[j] as nat,
            decreases n - i,
        {
            input_felts.push(Felt::from_u64(self.input[i]));
            i = i + 1;
        }
        let input_hash = commitment_chip.commit(&input_felts);
        proof {
            assert(felt_values(input_felts@) =~= input_commit_vals(self.input@));
        }

        // Unpack every plane into its scaled bits.
        proof {
            vstd::arithmetic::power2::lemma2_to64_rest();
            assert(PLANE_SIDE as int * PLANE_SIDE as int == 64) by (nonlinear_arith)
                requires
                    PLANE_SIDE == 8,
            ;
        }
        let unpacked = match input_unpacking_chip.add_layer(&self.input) {
            Ok(t) => t,
            Err(e) => {
                proof {
                    assert(false);
                }
                return Err(e);
            },
        };
        proof {
            crate::quantize::lemma_quantization_constants();
            vstd::arithmetic::power2::lemma_pow2_strictly_increases(20, 40);
            assert(unpacked.depth * unpacked.height * unpacked.width == n as int * 64)
                by (nonlinear_arith)
                requires
                    unpacked.depth == n as int,
                    unpacked.height == 8,
                    unpacked.width == 8,
            ;
            assert(unpacked.vals().len() == n as int * 64);
            assert forall|i2: int| 0 <= i2 < unpacked.vals().len() implies unpacked.vals()[i2]
                == unpacked_vals(self.input@)[i2] by {
                let d = i2 / 64;
                let k = i2 % 64;
                vstd::arithmetic::div_mod::lemma_fundamental_div_mod(i2, 64);
                vstd::arithmetic::div_mod::lemma_mod_division_less_than_divisor(i2, 64);
                vstd::arithmetic::div_mod::lemma_div_pos_is_pos(i2, 64);
                vstd::arithmetic::div_mod::lemma_multiply_divide_lt(i2, 64, n as int);
                assert(d * 64 + k == i2);
                assert(unpacked.vals()[d * 64 + k] == bit(self.input@[d], k) * SCALING_FACTOR);
            }
            assert(unpacked.vals() =~= unpacked_vals(self.input@));
            assert forall|i2: int| 0 <= i2 < unpacked.vals().len() implies -(MAX_MAG as int)
                <= #[trigger] unpacked.vals()[i2] <= MAX_MAG as int by {
                let d = i2 / 64;
                let k = i2 % 64;
                vstd::arithmetic::div_mod::lemma_fundamental_div_mod(i2, 64);
                vstd::arithmetic::div_mod::lemma_mod_division_less_than_divisor(i2, 64);
                vstd::arithmetic::div_mod::lemma_div_pos_is_pos(i2, 64);
                vstd::arithmetic::div_mod::lemma_multiply_divide_lt(i2, 64, n as int);
                assert(d * 64 + k == i2);
                assert(unpacked.vals()[d * 64 + k] == bit(self.input@[d], k) * SCALING_FACTOR);
                crate::bits::lemma_bit_binary(self.input@[d], k);
            }
        }

        // The entry block.
        proof {
            assert(unpacked.depth as int * k0.ker_height as int * k0.ker_width as int <= 65536)
                by (nonlinear_arith)
                requires
                    0 <= unpacked.depth as int <= 256,
                    0 <= k0.ker_height as int <= 16,
                    0 <= k0.ker_width as int <= 16,
            ;
            assert(k0.out_depth as int * (unpacked.height + 2 * cfg.conv_block_chip.conv_chip.padding_height + 1) * (
            unpacked.width + 2 * cfg.conv_block_chip.conv_chip.padding_width + 1) <= 256 * 11
                * 11) by (nonlinear_arith)
                requires
                    0 <= k0.out_depth as int <= 256,
                    0 <= unpacked.height + 2 * cfg.conv_block_chip.conv_chip.padding_height as int
                        + 1 <= 11,
                    0 <= unpacked.width + 2 * cfg.conv_block_chip.conv_chip.padding_width as int
                        + 1 <= 11,
            ;
        }
        let t0 = match conv_block_chip.add_layer(&unpacked, &self.params.conv_block) {
            Ok(t) => t,
            Err(e) => {
                proof {
                    if conv_block_shapes_ok(
                        cfg.conv_block_chip.conv_chip,
                        unpacked.depth as int,
                        unpacked.height as int,
                        unpacked.width as int,
                        self.params.conv_block,
                    ) {
                        assert(conv_block_spec(
                            unpacked_vals(self.input@),
                            self.input@.len() as int,
                            PLANE_SIDE as int,
                            PLANE_SIDE as int,
                            self.params.conv_block,
                            CONV_PADDING as int,
                            CONV_PADDING as int,
                        ) is None);
                        assert(leela_network_spec(self.input@, self.params, table, lo) is None);
                    } else {
                        assert(!network_shapes_ok(cfg, self.input@, self.params));
                    }
                }
                return Err(e);
            },
        };

        // The residual tower.  The validated shapes guarantee the
        // pooled-plane conditions every pass relies on.
        let ghost t0v = t0.vals();
        proof {
            assert(conv_block_spec(
                unpacked_vals(self.input@),
                self.input@.len() as int,
                PLANE_SIDE as int,
                PLANE_SIDE as int,
                self.params.conv_block,
                CONV_PADDING as int,
                CONV_PADDING as int,
            ) == Some(t0v));
            assert(conv_block_shapes_ok(
                cfg.conv_block_chip.conv_chip,
                self.input@.len() as int,
                PLANE_SIDE as int,
                PLANE_SIDE as int,
                self.params.conv_block,
            ));
            assert(t0.depth as int == d0 && t0.height as int == h0 && t0.width as int == w0);
        }
        let n_res = self.params.residuals.len();
        let mut acc = t0;
        let mut i: usize = 0;
        while i < n_res
            invariant
                i <= n_res,
                n_res == self.params.residuals@.len(),
                leela_params_ok(self.params),
                cfg == config,
                config_wf(cfg),
                network_shapes_ok(cfg, self.input@, self.params),
                residual_chip.spec_config() == cfg.residual_chip,
                table == ints(cfg.residual_chip.se_chip.sigmoid_chip.table@),
                lo == cfg.residual_chip.se_chip.sigmoid_chip.lo as int,
                acc.wf(),
                acc.bounded(MAX_MAG as int),
                acc.depth as int == d0,
                acc.height as int == h0,
                acc.width as int == w0,
                0 <= d0 <= 256,
                0 <= h0 <= 11,
                0 <= w0 <= 11,
                1 <= h0 * w0 <= MAX_TERMS,
                SCALING_FACTOR as int % (h0 * w0) == 0,
                conv_block_spec(
                    unpacked_vals(self.input@),
                    self.input@.len() as int,
                    PLANE_SIDE as int,
                    PLANE_SIDE as int,
                    self.params.conv_block,
                    CONV_PADDING as int,
                    CONV_PADDING as int,
                ) == Some(t0v),
                conv_block_shapes_ok(
                    cfg.conv_block_chip.conv_chip,
                    self.input@.len() as int,
                    PLANE_SIDE as int,
                    PLANE_SIDE as int,
                    self.params.conv_block,
                ),
                d0 == self.params.conv_block.conv_params.kernals.out_depth as int,
                h0 == conv_out_height(
                    PLANE_SIDE as int,
                    self.params.conv_block.conv_params.kernals,
                    CONV_PADDING as int,
                ),
                w0 == conv_out_width(
                    PLANE_SIDE as int,
                    self.params.conv_block.conv_params.kernals,
                    CONV_PADDING as int,
                ),
                fold_residuals(
                    t0v,
                    d0,
                    h0,
                    w0,
                    self.params.residuals@,
                    table,
                    lo,
                    CONV_PADDING as int,
                    CONV_PADDING as int,
                    i as nat,
                ) == Some(acc.vals()),
                forall|j: int|
                    0 <= j < i ==> residual_block_shapes_ok(
                        cfg.residual_chip.conv_chip,
                        d0,
                        h0,
                        w0,
                        #[trigger] self.params.residuals@[j],
                    ),
            decreases n_res - i,
        {
            let ghost rp = self.params.residuals@[i as int];
            proof {
                assert(residual_params_ok(rp));
                assert(acc.depth as int * rp.conv_params.0.kernals.ker_height as int
                    * rp.conv_params.0.kernals.ker_width as int <= 65536) by (nonlinear_arith)
                    requires
                        0 <= acc.depth as int <= 256,
                        0 <= rp.conv_params.0.kernals.ker_height as int <= 16,
                        0 <= rp.conv_params.0.kernals.ker_width as int <= 16,
                ;
                assert(rp.conv_params.0.kernals.out_depth as int
                    * rp.conv_params.1.kernals.ker_height as int
                    * rp.conv_params.1.kernals.ker_width as int <= 65536) by (nonlinear_arith)
                    requires
                        0 <= rp.conv_params.0.kernals.out_depth as int <= 256,
                        0 <= rp.conv_params.1.kernals.ker_height as int <= 16,
                        0 <= rp.conv_params.1.kernals.ker_width as int <= 16,
                ;
                assert(rp.conv_params.0.kernals.out_depth as int * (acc.height + 2
                    * cfg.residual_chip.conv_chip.padding_height + 1) * (acc.width + 2
                    * cfg.residual_chip.conv_chip.padding_width + 1) <= 256 * 14 * 14)
                    by (nonlinear_arith)
                    requires
                        0 <= rp.conv_params.0.kernals.out_depth as int <= 256,
                        0 <= acc.height + 2 * cfg.residual_chip.conv_chip.padding_height as int
                            + 1 <= 14,
                        0 <= acc.width + 2 * cfg.residual_chip.conv_chip.padding_width as int + 1
                            <= 14,
                ;
                assert(rp.conv_params.1.kernals.out_depth as int * (acc.height + 4
                    * cfg.residual_chip.conv_chip.padding_height + 2) * (acc.width + 4
                    * cfg.residual_chip.conv_chip.padding_width + 2) <= 256 * 17 * 17)
                    by (nonlinear_arith)
                    requires
                        0 <= rp.conv_params.1.kernals.out_depth as int <= 256,
                        0 <= acc.height + 4 * cfg.residual_chip.conv_chip.padding_height as int
                            + 2 <= 17,
                        0 <= acc.width + 4 * cfg.residual_chip.conv_chip.padding_width as int + 2
                            <= 17,
                ;
            }
            match residual_chip.add_layer(&acc, &self.params.residuals[i]) {
                Ok(t) => {
                    proof {
                        assert(residual_block_shapes_ok(
                            cfg.residual_chip.conv_chip,
                            d0,
                            h0,
                            w0,
                            rp,
                        ));
                        assert(fold_residuals(
                            t0v,
                            d0,
                            h0,
                            w0,
                            self.params.residuals@,
                            table,
                            lo,
                            CONV_PADDING as int,
                            CONV_PADDING as int,
                            (i + 1) as nat,
                        ) == Some(t.vals()));
                    }
                    acc = t;
                },
                Err(e) => {
                    proof {
                        if residual_block_shapes_ok(cfg.residual_chip.conv_chip, d0, h0, w0, rp) {
                            assert(fold_residuals(
                                t0v,
                                d0,
                                h0,
                                w0,
                                self.params.residuals@,
                                table,
                                lo,
                                CONV_PADDING as int,
                                CONV_PADDING as int,
                                (i + 1) as nat,
                            ) is None);
                            lemma_fold_residuals_none(
                                t0v,
                                d0,
                                h0,
                                w0,
                                self.params.residuals@,
                                table,
                                lo,
                                CONV_PADDING as int,
                                CONV_PADDING as int,
                                (i + 1) as nat,
                                n_res as nat,
                            );
                            assert(leela_network_spec(self.input@, self.params, table, lo)
                                is None);
                        } else {
                            assert(!network_shapes_ok(cfg, self.input@, self.params));
                        }
                    }
                    return Err(e);
                },
            }
            i = i + 1;
        }

        // The policy head.
        let ghost pp = self.params.policy_head;
        proof {
            assert(acc.depth as int * pp.conv_1_params.kernals.ker_height as int
                * pp.conv_1_params.kernals.ker_width as int <= 65536) by (nonlinear_arith)
                requires
                    0 <= acc.depth as int <= 256,
                    0 <= pp.conv_1_params.kernals.ker_height as int <= 16,
                    0 <= pp.conv_1_params.kernals.ker_width as int <= 16,
            ;
            assert(pp.conv_1_params.kernals.out_depth as int
                * pp.conv_2_params.kernals.ker_height as int
                * pp.conv_2_params.kernals.ker_width as int <= 65536) by (nonlinear_arith)
                requires
                    0 <= pp.conv_1_params.kernals.out_depth as int <= 256,
                    0 <= pp.conv_2_params.kernals.ker_height as int <= 16,
                    0 <= pp.conv_2_params.kernals.ker_width as int <= 16,
            ;
            assert(pp.conv_1_params.kernals.out_depth as int * (acc.height + 2
                * cfg.policy_head_chip.conv_chip.padding_height + 1) * (acc.width + 2
                * cfg.policy_head_chip.conv_chip.padding_width + 1) <= 256 * 14 * 14)
                by (nonlinear_arith)
                requires
                    0 <= pp.conv_1_params.kernals.out_depth as int <= 256,
                    0 <= acc.height + 2 * cfg.policy_head_chip.conv_chip.padding_height as int + 1
                        <= 14,
                    0 <= acc.width + 2 * cfg.policy_head_chip.conv_chip.padding_width as int + 1
                        <= 14,
            ;
            assert(pp.conv_2_params.kernals.out_depth as int * (acc.height + 4
                * cfg.policy_head_chip.conv_chip.padding_height + 2) * (acc.width + 4
                * cfg.policy_head_chip.conv_chip.padding_width + 2) <= 256 * 17 * 17)
                by (nonlinear_arith)
                requires
                    0 <= pp.conv_2_params.kernals.out_depth as int <= 256,
                    0 <= acc.height + 4 * cfg.policy_head_chip.conv_chip.padding_height as int + 2
                        <= 17,
                    0 <= acc.width + 4 * cfg.policy_head_chip.conv_chip.padding_width as int + 2
                        <= 17,
            ;
        }
        let output = match policy_head_chip.add_layer(&acc, &self.params.policy_head) {
            Ok(v) => v,
            Err(e) => {
                proof {
                    if policy_head_shapes_ok(
                        cfg.policy_head_chip.conv_chip,
                        d0,
                        h0,
                        w0,
                        self.params.policy_head,
                    ) {
                        assert(policy_head_spec(
                            acc.vals(),
                            d0,
                            h0,
                            w0,
                            self.params.policy_head,
                            CONV_PADDING as int,
                            CONV_PADDING as int,
                        ) is None);
                        assert(leela_network_spec(self.input@, self.params, table, lo) is None);
                    } else {
                        assert(!network_shapes_ok(cfg, self.input@, self.params));
                    }
                }
                return Err(e);
            },
        };

        // The output commitment.
        proof {
            crate::quantize::lemma_quantization_constants();
            vstd::arithmetic::power2::lemma_pow2_strictly_increases(40, 63);
            vstd::arithmetic::power2::lemma2_to64_rest();
        }
        let m = output.len();
        let mut out_felts: Vec<Felt> = Vec::new();
        let mut j: usize = 0;
        while j < m
            invariant
                j <= m,
                m == output@.len(),
                seq_bounded(ints(output@), MAX_MAG as int),
                MAX_MAG < 0x8000000000000000i128,
                out_felts@.len() == j,
                forall|k: int|
                    0 <= k < j ==> (#[trigger] out_felts@[k]).wf() && out_felts@[k].value()
                        == encode_signed(ints(output@)[k]),
            decreases m - j,
        {
            let x = output[j];
            proof {
                assert(ints(output@)[j as int] == x as int);
            }
            out_felts.push(Felt::from_i64(x as i64));
            j = j + 1;
        }
        let output_hash = commitment_chip.commit(&out_felts);
        proof {
            assert(felt_values(out_felts@) =~= encoded_outputs(ints(output@)));
            assert(leela_network_spec(self.input@, self.params, table, lo) == Some(
                ints(output@),
            ));
            assert(network_shapes_ok(cfg, self.input@, self.params));
        }
        Ok(SynthesisOutcome { output, input_hash, output_hash })
    }

    /// Lays the whole circuit out in composition order: the shared
    /// range table first, then every chip drawing from one conflict-free
    /// column pool through the shared allocators, and finally the
    /// permutation chip's own columns and the public instance column.
    pub fn configure(
        meta: &mut ConstraintSystem,
        sigmoid_table: Vec<i128>,
        sigmoid_lo: i128,
    ) -> (config: LeelaConfig)
        requires
            old(meta).num_advice == 0,
            old(meta).num_fixed == 0,
            old(meta).num_instance == 0,
            old(meta).num_selectors == 0,
            old(meta).num_gates == 0,
            old(meta).num_lookups == 0,
            seq_bounded(ints(sigmoid_table@), MAX_MAG as int),
            -(MAX_MAG as int) <= sigmoid_lo as int <= MAX_MAG as int,
            sigmoid_table@.len() <= MAX_MAG as int,
        ensures
            config_wf(config),
            config.residual_chip.se_chip.sigmoid_chip.table@ == sigmoid_table@,
            config.residual_chip.se_chip.sigmoid_chip.lo == sigmoid_lo,
            // The one shared range table sits in the first fixed column
            // and is the table of every range-checking chip.
            config.range_table == (DecompTable {
                column: Column { kind: ColumnKind::Fixed, index: 0 },
            }),
            config.conv_block_chip.norm_chip.range_table == config.range_table,
            config.conv_block_chip.relu_chip.range_table == config.range_table,
            config.residual_chip.norm_chip.range_table == config.range_table,
            config.residual_chip.relu_norm_chip.range_table == config.range_table,
            config.residual_chip.relu_chip.range_table == config.range_table,
            config.residual_chip.se_chip.lin_relu_chip.range_table == config.range_table,
            config.residual_chip.se_chip.lin_norm_chip.range_table == config.range_table,
            config.residual_chip.se_chip.norm_chip.range_table == config.range_table,
            config.policy_head_chip.norm_chip.range_table == config.range_table,
            config.policy_head_chip.relu_chip.range_table == config.range_table,
            // The shared tower convolution chip, and its reuse by the
            // residual blocks and the policy head.
            config.residual_chip.conv_chip == (Conv3DLayerConfig {
                first_column: Column { kind: ColumnKind::Advice, index: 0 },
                num_columns: 74,
                kernal_column: Column { kind: ColumnKind::Fixed, index: 1 },
                ker_height: KERNEL_SIDE as usize,
                ker_width: KERNEL_SIDE as usize,
                padding_height: CONV_PADDING as usize,
                padding_width: CONV_PADDING as usize,
            }),
            config.policy_head_chip.conv_chip == config.residual_chip.conv_chip,
            // The shared batch-norm, renormalization and rectifier
            // chips, threaded into all three blocks.
            config.conv_block_chip.bn_chip == (ChannelwiseConfig {
                first_column: Column { kind: ColumnKind::Advice, index: 74 },
                num_columns: 4,
            }),
            config.residual_chip.bn_chip == config.conv_block_chip.bn_chip,
            config.policy_head_chip.bn_chip == config.conv_block_chip.bn_chip,
            config.conv_block_chip.norm_chip.first_column == (Column {
                kind: ColumnKind::Advice,
                index: 78,
            }),
            config.conv_block_chip.norm_chip.num_columns == 8,
            config.residual_chip.norm_chip == config.conv_block_chip.norm_chip,
            config.residual_chip.se_chip.norm_chip == config.conv_block_chip.norm_chip,
            config.policy_head_chip.norm_chip == config.conv_block_chip.norm_chip,
            config.conv_block_chip.relu_chip.first_column == (Column {
                kind: ColumnKind::Advice,
                index: 86,
            }),
            config.conv_block_chip.relu_chip.num_columns == 8,
            config.residual_chip.relu_norm_chip == config.conv_block_chip.relu_chip,
            config.policy_head_chip.relu_chip == config.conv_block_chip.relu_chip,
            // The entry block's own convolution chip.
            config.conv_block_chip.conv_chip == (Conv3DLayerConfig {
                first_column: Column { kind: ColumnKind::Advice, index: 94 },
                num_columns: 65,
                kernal_column: Column { kind: ColumnKind::Fixed, index: 2 },
                ker_height: KERNEL_SIDE as usize,
                ker_width: KERNEL_SIDE as usize,
                padding_height: CONV_PADDING as usize,
                padding_width: CONV_PADDING as usize,
            }),
            // The residual block's fresh sub-chips.
            config.residual_chip.se_chip.lin_relu_chip.first_column == (Column {
                kind: ColumnKind::Advice,
                index: 159,
            }),
            config.residual_chip.se_chip.lin_norm_chip
                == config.residual_chip.se_chip.lin_relu_chip,
            config.residual_chip.se_chip.fc_chip_1 == (FcConfig {
                first_column: Column { kind: ColumnKind::Advice, index: 167 },
                num_columns: 10,
                bias_column: Column { kind: ColumnKind::Fixed, index: 3 },
                folding_factor: 16,
                weights_height: 32,
                weights_width: 128,
            }),
            config.residual_chip.se_chip.fc_chip_2 == (FcConfig {
                first_column: Column { kind: ColumnKind::Advice, index: 177 },
                num_columns: 18,
                bias_column: Column { kind: ColumnKind::Fixed, index: 4 },
                folding_factor: 2,
                weights_height: 256,
                weights_width: 32,
            }),
            config.residual_chip.se_chip.avg_pool_chip == (ChannelwiseConfig {
                first_column: Column { kind: ColumnKind::Advice, index: 195 },
                num_columns: 4,
            }),
            config.residual_chip.se_chip.dist_mul_chip == (ChannelwiseConfig {
                first_column: Column { kind: ColumnKind::Advice, index: 199 },
                num_columns: 4,
            }),
            config.residual_chip.se_chip.dist_add_chip == (ChannelwiseConfig {
                first_column: Column { kind: ColumnKind::Advice, index: 203 },
                num_columns: 4,
            }),
            config.residual_chip.se_chip.sigmoid_chip.first_column == (Column {
                kind: ColumnKind::Advice,
                index: 207,
            }),
            config.residual_chip.se_chip.sigmoid_chip.num_columns == 8,
            config.residual_chip.residual_add_chip == (ChannelwiseConfig {
                first_column: Column { kind: ColumnKind::Advice, index: 215 },
                num_columns: 4,
            }),
            config.residual_chip.relu_chip.first_column == (Column {
                kind: ColumnKind::Advice,
                index: 219,
            }),
            config.residual_chip.relu_chip.num_columns == 8,
            // The policy head's fresh bias chip.
            config.policy_head_chip.dist_add_chip == (ChannelwiseConfig {
                first_column: Column { kind: ColumnKind::Advice, index: 227 },
                num_columns: 4,
            }),
            // The unpacking chip, the raw input column, the permutation
            // chip's columns, and the public instance column.
            config.input_unpacking_chip.input == (Column {
                kind: ColumnKind::Advice,
                index: 231,
            }),
            config.input_unpacking_chip.output@ == crate::columns::taken_columns(
                ColumnKind::Advice,
                232,
                64,
            ),
            config.input_unpacking_chip.selector == 0,
            config.input_advice == (Column { kind: ColumnKind::Advice, index: 296 }),
            config.hash_chip.state.0 == (Column { kind: ColumnKind::Advice, index: 297 }),
            config.hash_chip.state.1 == (Column { kind: ColumnKind::Advice, index: 298 }),
            config.hash_chip.state.2 == (Column { kind: ColumnKind::Advice, index: 299 }),
            config.hash_chip.partial_sbox == (Column { kind: ColumnKind::Advice, index: 300 }),
            config.hash_chip.rc_a.0 == (Column { kind: ColumnKind::Fixed, index: 5 }),
            config.hash_chip.rc_b.2 == (Column { kind: ColumnKind::Fixed, index: 10 }),
            config.output == (Column { kind: ColumnKind::Instance, index: 0 }),
            final(meta).num_advice == 301,
            final(meta).num_fixed == 11,
            final(meta).num_instance == 1,
            final(meta).num_selectors == 1,
            final(meta).num_gates == 17,
            final(meta).num_lookups == 6,
    {
        let mut advice_allocator = ColumnAllocator::new(ColumnKind::Advice);
        let mut fixed_allocator = ColumnAllocator::new(ColumnKind::Fixed);

        let range_table = DecompTable::configure(meta);

        let conv_params = Conv3DLayerConfigParams {
            input_height: PLANE_SIDE,
            input_width: PLANE_SIDE,
            input_depth: TOWER_PLANES,
            ker_height: KERNEL_SIDE,
            ker_width: KERNEL_SIDE,
            padding_width: CONV_PADDING,
            padding_height: CONV_PADDING,
            folding_factor: CONV_FOLDING,
        };
        let conv_chip = Conv3DLayerChip::configure(
            meta,
            conv_params,
            &mut advice_allocator,
            &mut fixed_allocator,
        );
        proof {
            assert(TOWER_PLANES as int * KERNEL_SIDE as int * KERNEL_SIDE as int == 1152)
                by (nonlinear_arith)
                requires
                    TOWER_PLANES == 128,
                    KERNEL_SIDE == 3,
            ;
            assert(1152int / (CONV_FOLDING as int) == 72) by (nonlinear_arith)
                requires
                    CONV_FOLDING == 16,
            ;
        }

        let bn_chip = BatchnormChip::configure(meta, &mut advice_allocator);
        let norm_chip = Normalize2dChip::configure(meta, &mut advice_allocator, range_table);
        let relu_chip = ReluNorm2DChip::configure(meta, &mut advice_allocator, range_table);

        let conv_block_params = ConvBlockChipConfig {
            norm_relu_chip: relu_chip,
            norm_chip,
            bn_chip,
        };
        let conv_block_chip = ConvBlockChip::configure(
            meta,
            conv_block_params,
            &mut advice_allocator,
            &mut fixed_allocator,
        );

        let residual_block_params = ResidualBlockChipConfig {
            norm_relu_chip: relu_chip,
            norm_chip,
            bn_chip,
            conv_chip,
            range_table,
            sigmoid_table,
            sigmoid_lo,
        };
        let residual_chip = ResidualBlockChip::configure(
            meta,
            residual_block_params,
            &mut advice_allocator,
            &mut fixed_allocator,
        );

        let policy_head_params = PolicyHeadChipConfig {
            norm_relu_chip: relu_chip,
            norm_chip,
            bn_chip,
            conv_chip,
        };
        let policy_head_chip = PolicyHeadChip::configure(
            meta,
            policy_head_params,
            &mut advice_allocator,
            &mut fixed_allocator,
        );

        proof {
            assert(PLANE_SIDE as int * PLANE_SIDE as int == 64) by (nonlinear_arith)
                requires
                    PLANE_SIDE == 8,
            ;
        }
        let input_unpacking_chip = InputUnpackingChip::configure(
            meta,
            (PLANE_SIDE, PLANE_SIDE),
            &mut advice_allocator,
        );

        let input_advice = meta.advice_column();
        let hash_chip = SpongeColumns::configure(meta);
        let output = meta.instance_column();

        LeelaConfig {
            output,
            input_advice,
            conv_block_chip,
            residual_chip,
            policy_head_chip,
            range_table,
            hash_chip,
            input_unpacking_chip,
        }
    }
}

} // verus!

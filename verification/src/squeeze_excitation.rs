//! The squeeze-excitation block: channel-wise gating.
//!
//! The block squeezes each channel's plane to one pooled scalar, runs the
//! pooled vector through two fully-connected projections with their
//! activations, splits the result into a per-channel scale and shift,
//! gates the scales through the sigmoid table, and applies
//! scale-then-shift to the block's input.  The sigmoid's table is a
//! configuration constant computed outside the circuit, like the trained
//! weights.

use vstd::prelude::*;
use crate::columns::{Column, ColumnKind, ConstraintSystem, ColumnAllocator};
use crate::error::CircuitError;
use crate::linear::{
    AvgPool2DChip,
    ChannelwiseConfig,
    DistributedAddChip,
    DistributedMulChip,
    FcChip,
    FcChipConfig,
    FcChipParams,
    FcConfig,
    avg_pool_map,
    avg_pool_ok,
    dist_add_map,
    dist_mul_map,
    fc_map,
    lemma_flat_channel_in_range,
    MAX_TERMS,
};
use crate::lookup::DecompTable;
use crate::nonlinear::{
    EltwiseConfig,
    Normalize2dChip,
    SigmoidChip,
    all_norm_in_range,
    norm_map,
    normalize_vec,
    relu_norm_map,
    relu_normalize_vec,
    sigmoid_stage,
    ELTWISE_ADVICE,
};
use crate::quantize::{MAX_MAG, SCALING_FACTOR, lemma_quantization_constants};
use crate::tensor::{Tensor3, ints, seq_bounded};

verus! {

/// Layout of the whole block: its pooling, projection, activation and
/// gating sub-chips.
pub struct SqueezeExcitationBlockConfig {
    pub fc_chip_1: FcConfig,
    pub fc_chip_2: FcConfig,
    pub avg_pool_chip: ChannelwiseConfig,
    pub dist_mul_chip: ChannelwiseConfig,
    pub dist_add_chip: ChannelwiseConfig,
    pub sigmoid_chip: SigmoidChip,
    pub norm_chip: EltwiseConfig,
    pub lin_norm_chip: EltwiseConfig,
    pub lin_relu_chip: EltwiseConfig,
}

/// Constants of one block instantiation: the two fully-connected
/// projections' weights and biases.
#[derive(Debug)]
pub struct SqueezeExcitationBlockChipParams {
    pub fc_params: (FcChipParams, FcChipParams),
}

/// What the block's configuration borrows from the surrounding circuit,
/// plus the sigmoid activation's table.
pub struct SqueezeExcitationBlockChipConfig {
    pub range_table: DecompTable,
    pub norm_chip: EltwiseConfig,
    pub sigmoid_table: Vec<i128>,
    pub sigmoid_lo: i128,
}

/// The squeeze-excitation block chip.
pub struct SqueezeExcitationBlockChip {
    config: SqueezeExcitationBlockConfig,
}

/// Whether the projections' shapes agree with the block's input: the
/// first projection consumes one pooled scalar per channel, and the
/// second produces exactly one scale and one shift per channel.
pub open spec fn se_shapes_ok(depth: int, params: SqueezeExcitationBlockChipParams) -> bool {
    &&& params.fc_params.0.weights.cols == depth
    &&& params.fc_params.0.biases@.len() == params.fc_params.0.weights.rows
    &&& params.fc_params.1.weights.cols == params.fc_params.0.weights.rows
    &&& params.fc_params.1.biases@.len() == params.fc_params.1.weights.rows
    &&& params.fc_params.1.weights.rows == 2 * depth
}

/// The block's output cells, or `None` when some stage's witness fits no
/// decomposition: pool, project, rectify, project, renormalize, split
/// into scale and shift, gate the scales through the sigmoid, then
/// scale-renormalize-shift the input.
pub open spec fn squeeze_excitation_spec(
    s: Seq<int>,
    depth: int,
    h: int,
    w: int,
    params: SqueezeExcitationBlockChipParams,
    table: Seq<int>,
    lo: int,
) -> Option<Seq<int>> {
    if !avg_pool_ok(s, depth, h, w) {
        None
    } else {
        let fc1 = fc_map(
            params.fc_params.0.weights,
            ints(params.fc_params.0.biases@),
            avg_pool_map(s, depth, h, w),
        );
        if !all_norm_in_range(fc1) {
            None
        } else {
            let fc2 = fc_map(
                params.fc_params.1.weights,
                ints(params.fc_params.1.biases@),
                relu_norm_map(fc1),
            );
            if !all_norm_in_range(fc2) {
                None
            } else {
                let r2 = norm_map(fc2);
                let scale = r2.take(depth);
                let shift = r2.skip(depth);
                match sigmoid_stage(table, lo, scale) {
                    Some(sg) => {
                        let m = dist_mul_map(s, sg, h * w);
                        if !all_norm_in_range(m) {
                            None
                        } else {
                            Some(dist_add_map(norm_map(m), shift, h * w))
                        }
                    },
                    None => None,
                }
            }
        }
    }
}

impl SqueezeExcitationBlockChip {
    /// The layout this chip was built over.
    pub closed spec fn spec_config(self) -> SqueezeExcitationBlockConfig {
        self.config
    }

    /// Builds the chip over a configured layout.
    pub fn construct(config: SqueezeExcitationBlockConfig) -> (chip: SqueezeExcitationBlockChip)
        ensures
            chip.spec_config() == config,
    {
        SqueezeExcitationBlockChip { config }
    }

    /// Lays the block out: one shared run of element-wise columns that
    /// both linear activation chips work over, the two folded
    /// projections, pooling, gating and the sigmoid table, every fresh
    /// range drawn from the shared pool.
    pub fn configure(
        meta: &mut ConstraintSystem,
        config_params: SqueezeExcitationBlockChipConfig,
        advice_allocator: &mut ColumnAllocator,
        fixed_allocator: &mut ColumnAllocator,
    ) -> (config: SqueezeExcitationBlockConfig)
        requires
            old(advice_allocator).kind == ColumnKind::Advice,
            old(fixed_allocator).kind == ColumnKind::Fixed,
            old(meta).num_advice + 56 <= usize::MAX,
            old(advice_allocator).taken + 56 <= usize::MAX,
            old(meta).num_fixed + 2 <= usize::MAX,
            old(fixed_allocator).taken + 2 <= usize::MAX,
            old(meta).num_gates + 8 <= usize::MAX,
            old(meta).num_lookups + 3 <= usize::MAX,
            seq_bounded(ints(config_params.sigmoid_table@), MAX_MAG as int),
            -(MAX_MAG as int) <= config_params.sigmoid_lo as int <= MAX_MAG as int,
            config_params.sigmoid_table@.len() <= MAX_MAG as int,
        ensures
            config.lin_relu_chip == (EltwiseConfig {
                first_column: Column { kind: ColumnKind::Advice, index: old(meta).num_advice },
                num_columns: ELTWISE_ADVICE as usize,
                range_table: config_params.range_table,
            }),
            config.lin_norm_chip == config.lin_relu_chip,
            config.fc_chip_1 == (FcConfig {
                first_column: Column {
                    kind: ColumnKind::Advice,
                    index: (old(meta).num_advice + 8) as usize,
                },
                num_columns: 10,
                bias_column: Column { kind: ColumnKind::Fixed, index: old(meta).num_fixed },
                folding_factor: 16,
                weights_height: 32,
                weights_width: 128,
            }),
            config.fc_chip_2 == (FcConfig {
                first_column: Column {
                    kind: ColumnKind::Advice,
                    index: (old(meta).num_advice + 18) as usize,
                },
                num_columns: 18,
                bias_column: Column {
                    kind: ColumnKind::Fixed,
                    index: (old(meta).num_fixed + 1) as usize,
                },
                folding_factor: 2,
                weights_height: 256,
                weights_width: 32,
            }),
            config.avg_pool_chip == (ChannelwiseConfig {
                first_column: Column {
                    kind: ColumnKind::Advice,
                    index: (old(meta).num_advice + 36) as usize,
                },
                num_columns: 4,
            }),
            config.dist_mul_chip == (ChannelwiseConfig {
                first_column: Column {
                    kind: ColumnKind::Advice,
                    index: (old(meta).num_advice + 40) as usize,
                },
                num_columns: 4,
            }),
            config.dist_add_chip == (ChannelwiseConfig {
                first_column: Column {
                    kind: ColumnKind::Advice,
                    index: (old(meta).num_advice + 44) as usize,
                },
                num_columns: 4,
            }),
            config.sigmoid_chip.wf(),
            config.sigmoid_chip.table@ == config_params.sigmoid_table@,
            config.sigmoid_chip.lo == config_params.sigmoid_lo,
            config.sigmoid_chip.first_column == (Column {
                kind: ColumnKind::Advice,
                index: (old(meta).num_advice + 48) as usize,
            }),
            config.sigmoid_chip.num_columns == ELTWISE_ADVICE,
            config.norm_chip == config_params.norm_chip,
            final(meta).num_advice == old(meta).num_advice + 56,
            final(meta).num_fixed == old(meta).num_fixed + 2,
            final(meta).num_gates == old(meta).num_gates + 8,
            final(meta).num_lookups == old(meta).num_lookups + 3,
            final(meta).num_instance == old(meta).num_instance,
            final(meta).num_selectors == old(meta).num_selectors,
            final(advice_allocator).kind == ColumnKind::Advice,
            final(advice_allocator).taken == old(advice_allocator).taken + 56,
            final(fixed_allocator).kind == ColumnKind::Fixed,
            final(fixed_allocator).taken == old(fixed_allocator).taken + 2,
    {
        // One run of element-wise columns, shared by the rectifying and
        // the plain renormalization chip: the same input, window and
        // output columns, two gates and two lookups over them.
        let elt_advices = advice_allocator.take(meta, ELTWISE_ADVICE);
        let elt_first = elt_advices[0];
        meta.create_gate();
        meta.lookup();
        let lin_relu_chip = EltwiseConfig {
            first_column: elt_first,
            num_columns: ELTWISE_ADVICE,
            range_table: config_params.range_table,
        };
        meta.create_gate();
        meta.lookup();
        let lin_norm_chip = EltwiseConfig {
            first_column: elt_first,
            num_columns: ELTWISE_ADVICE,
            range_table: config_params.range_table,
        };

        let fc_params_1 = FcChipConfig { weights_height: 32, weights_width: 128, folding_factor: 16 };
        let fc_chip_1 = FcChip::configure(meta, fc_params_1, advice_allocator, fixed_allocator);
        let fc_params_2 = FcChipConfig { weights_height: 256, weights_width: 32, folding_factor: 2 };
        let fc_chip_2 = FcChip::configure(meta, fc_params_2, advice_allocator, fixed_allocator);
        let avg_pool_chip = AvgPool2DChip::configure(meta, advice_allocator);
        let dist_mul_chip = DistributedMulChip::configure(meta, advice_allocator);
        let dist_add_chip = DistributedAddChip::configure(meta, advice_allocator);
        let sigmoid_chip = SigmoidChip::configure(
            meta,
            advice_allocator,
            config_params.sigmoid_table,
            config_params.sigmoid_lo,
        );
        SqueezeExcitationBlockConfig {
            fc_chip_1,
            fc_chip_2,
            avg_pool_chip,
            dist_mul_chip,
            dist_add_chip,
            sigmoid_chip,
            norm_chip: config_params.norm_chip,
            lin_norm_chip,
            lin_relu_chip,
        }
    }

    /// Runs the block.  A projection whose shapes disagree with the
    /// input's channels is a configuration defect; a witness outside its
    /// decomposition or the sigmoid's domain leaves the circuit
    /// unsatisfiable.
    pub fn add_layer(&self, input: &Tensor3, params: &SqueezeExcitationBlockChipParams) -> (res:
        Result<Tensor3, CircuitError>)
        requires
            input.wf(),
            input.bounded(MAX_MAG as int),
            1 <= input.height * input.width <= MAX_TERMS,
            SCALING_FACTOR as int % (input.height * input.width) == 0,
            params.fc_params.0.weights.wf(),
            params.fc_params.0.weights.bounded(MAX_MAG as int),
            params.fc_params.0.weights.cols <= MAX_TERMS,
            seq_bounded(
                ints(params.fc_params.0.biases@),
                MAX_MAG as int * SCALING_FACTOR as int,
            ),
            params.fc_params.1.weights.wf(),
            params.fc_params.1.weights.bounded(MAX_MAG as int),
            params.fc_params.1.weights.cols <= MAX_TERMS,
            seq_bounded(
                ints(params.fc_params.1.biases@),
                MAX_MAG as int * SCALING_FACTOR as int,
            ),
            self.spec_config().sigmoid_chip.wf(),
        ensures
            !se_shapes_ok(input.depth as int, *params) ==> res == Err::<Tensor3, CircuitError>(
                CircuitError::ShapeMismatch,
            ),
            se_shapes_ok(input.depth as int, *params) ==> match squeeze_excitation_spec(
                input.vals(),
                input.depth as int,
                input.height as int,
                input.width as int,
                *params,
                ints(self.spec_config().sigmoid_chip.table@),
                self.spec_config().sigmoid_chip.lo as int,
            ) {
                Some(v) => res matches Ok(out) && {
                    &&& out.wf()
                    &&& out.depth == input.depth
                    &&& out.height == input.height
                    &&& out.width == input.width
                    &&& out.vals() == v
                    &&& out.bounded(2 * MAX_MAG as int)
                },
                None => res == Err::<Tensor3, CircuitError>(CircuitError::Unsatisfiable),
            },
    {
        let w1 = &params.fc_params.0;
        let w2 = &params.fc_params.1;
        if w1.weights.cols != input.depth || w1.biases.len() != w1.weights.rows
            || w2.weights.cols != w1.weights.rows || w2.biases.len() != w2.weights.rows
            || w2.weights.rows % 2 != 0 || w2.weights.rows / 2 != input.depth {
            return Err(CircuitError::ShapeMismatch);
        }
        let fc_chip_1 = FcChip::construct(self.config.fc_chip_1);
        let fc_chip_2 = FcChip::construct(self.config.fc_chip_2);
        let avg_pool_chip = AvgPool2DChip::construct(self.config.avg_pool_chip);
        let dist_mul_chip = DistributedMulChip::construct(self.config.dist_mul_chip);
        let dist_add_chip = DistributedAddChip::construct(self.config.dist_add_chip);
        let norm_chip = Normalize2dChip::construct(self.config.norm_chip);

        proof {
            lemma_quantization_constants();
            vstd::arithmetic::power2::lemma2_to64_rest();
            vstd::arithmetic::power2::lemma_pow2_strictly_increases(40, 62);
        }

        let avg_vec = match avg_pool_chip.add_layer(input) {
            Ok(v) => v,
            Err(e) => {
                return Err(e);
            },
        };
        let fc_1 = match fc_chip_1.add_layer(&avg_vec, w1) {
            Ok(v) => v,
            Err(e) => {
                return Err(e);
            },
        };
        let fc_1 = match relu_normalize_vec(&fc_1) {
            Ok(v) => v,
            Err(e) => {
                return Err(e);
            },
        };
        let fc_2 = match fc_chip_2.add_layer(&fc_1, w2) {
            Ok(v) => v,
            Err(e) => {
                return Err(e);
            },
        };
        let fc_2 = match normalize_vec(&fc_2) {
            Ok(v) => v,
            Err(e) => {
                return Err(e);
            },
        };
        let depth = input.depth;
        let n2 = fc_2.len();
        let mut scale: Vec<i128> = Vec::new();
        let mut i: usize = 0;
        while i < depth
            invariant
                i <= depth,
                depth <= n2 == fc_2@.len() == 2 * depth,
                scale@.len() == i,
                forall|j: int| 0 <= j < i ==> #[trigger] scale@[j] == fc_2@[j],
            decreases depth - i,
        {
            scale.push(fc_2[i]);
            i = i + 1;
        }
        let mut shift: Vec<i128> = Vec::new();
        let mut i: usize = depth;
        while i < n2
            invariant
                depth <= i <= n2,
                n2 == fc_2@.len() == 2 * depth,
                shift@.len() == i - depth,
                forall|j: int| 0 <= j < i - depth ==> #[trigger] shift@[j] == fc_2@[depth + j],
            decreases n2 - i,
        {
            shift.push(fc_2[i]);
            i = i + 1;
        }
        proof {
            assert(ints(scale@) =~= ints(fc_2@).take(depth as int));
            assert(ints(shift@) =~= ints(fc_2@).skip(depth as int));
        }
        let scale_sigmoid = match self.config.sigmoid_chip.add_layer(&scale) {
            Ok(v) => v,
            Err(e) => {
                return Err(e);
            },
        };
        let scaled_input = match dist_mul_chip.add_layer(input, &scale_sigmoid) {
            Ok(t) => t,
            Err(e) => {
                return Err(e);
            },
        };
        let normed_scaled = match norm_chip.add_layer(&scaled_input) {
            Ok(t) => t,
            Err(e) => {
                return Err(e);
            },
        };
        let out = match dist_add_chip.add_layer(&normed_scaled, &shift) {
            Ok(t) => t,
            Err(e) => {
                return Err(e);
            },
        };
        proof {
            let hw = input.height as int * input.width as int;
            assert forall|j: int| 0 <= j < out.vals().len() implies -(2 * MAX_MAG as int)
                <= #[trigger] out.vals()[j] <= 2 * MAX_MAG as int by {
                assert(normed_scaled.depth as int * hw == normed_scaled.data@.len()) by {
                    assert(normed_scaled.depth * (normed_scaled.height * normed_scaled.width)
                        == normed_scaled.depth * normed_scaled.height * normed_scaled.width)
                        by (nonlinear_arith);
                }
                lemma_flat_channel_in_range(j, normed_scaled.depth as int, hw);
                assert(out.vals()[j] == normed_scaled.vals()[j] + ints(shift@)[j / hw]);
            }
        }
        Ok(out)
    }
}

} // verus!

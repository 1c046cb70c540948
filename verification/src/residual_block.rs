//! The residual block: the network's repeated tower stage.
//!
//! Two convolution → renormalize → batch-norm stages, a
//! squeeze-excitation gating, the skip connection's residual addition
//! against the block's own input, and a final rectifier.

use vstd::prelude::*;
use crate::columns::{Column, ColumnKind, ConstraintSystem, ColumnAllocator};
use crate::conv::{
    Conv3DLayerChip,
    Conv3DLayerConfig,
    Conv3DLayerParams,
    conv_map,
    conv_out_height,
    conv_out_width,
};
use crate::error::CircuitError;
use crate::linear::{
    BatchnormChip,
    BatchnormChipParams,
    ChannelwiseConfig,
    ResidualAdd2DChip,
    add_seq,
    batchnorm_map,
    pairs,
    pairs_bounded,
    MAX_TERMS,
};
use crate::lookup::DecompTable;
use crate::linear::FcConfig;
use crate::nonlinear::{
    EltwiseConfig,
    Normalize2dChip,
    Relu2DChip,
    ReluNorm2DChip,
    all_in_mag,
    all_norm_in_range,
    norm_map,
    relu_map,
    relu_norm_map,
};
use crate::quantize::{MAX_MAG, SCALING_FACTOR, lemma_quantization_constants};
use crate::squeeze_excitation::{
    SqueezeExcitationBlockChip,
    SqueezeExcitationBlockChipConfig,
    SqueezeExcitationBlockChipParams,
    SqueezeExcitationBlockConfig,
    se_shapes_ok,
    squeeze_excitation_spec,
};
use crate::tensor::{Tensor3, ints, seq_bounded};

verus! {

/// Layout of the whole block: the sub-chips it composes.
pub struct ResidualBlockConfig {
    pub conv_chip: Conv3DLayerConfig,
    pub bn_chip: ChannelwiseConfig,
    pub norm_chip: EltwiseConfig,
    pub relu_norm_chip: EltwiseConfig,
    pub se_chip: SqueezeExcitationBlockConfig,
    pub residual_add_chip: ChannelwiseConfig,
    pub relu_chip: EltwiseConfig,
}

/// Constants of one block instantiation: the two convolutions' kernels,
/// the two batch-norm stages' pairs, and the gating projections.
#[derive(Debug)]
pub struct ResidualBlockChipParams {
    pub conv_params: (Conv3DLayerParams, Conv3DLayerParams),
    pub bn_params: (BatchnormChipParams, BatchnormChipParams),
    pub se_params: SqueezeExcitationBlockChipParams,
}

/// What the block's configuration borrows from the surrounding circuit,
/// plus the gating sigmoid's table.
pub struct ResidualBlockChipConfig {
    pub norm_relu_chip: EltwiseConfig,
    pub norm_chip: EltwiseConfig,
    pub bn_chip: ChannelwiseConfig,
    pub conv_chip: Conv3DLayerConfig,
    pub range_table: DecompTable,
    pub sigmoid_table: Vec<i128>,
    pub sigmoid_lo: i128,
}

/// The residual block chip.  It owns its gating block ready-built, and
/// copies of the shared chips' layouts.
pub struct ResidualBlockChip {
    conv_chip: Conv3DLayerConfig,
    bn_chip: ChannelwiseConfig,
    norm_chip: EltwiseConfig,
    relu_norm_chip: EltwiseConfig,
    se_chip: SqueezeExcitationBlockChip,
    residual_add_chip: ChannelwiseConfig,
    relu_chip: EltwiseConfig,
}

/// Whether the supplied constants fit the block's configured shapes, and
/// the chain comes back to the input's own shape for the skip
/// connection.
pub open spec fn residual_block_shapes_ok(
    conv_chip: Conv3DLayerConfig,
    depth: int,
    h: int,
    w: int,
    params: ResidualBlockChipParams,
) -> bool {
    let k1 = params.conv_params.0.kernals;
    let k2 = params.conv_params.1.kernals;
    let h1 = conv_out_height(h, k1, conv_chip.padding_height as int);
    let w1 = conv_out_width(w, k1, conv_chip.padding_width as int);
    &&& k1.in_depth == depth
    &&& k1.ker_height == conv_chip.ker_height
    &&& k1.ker_width == conv_chip.ker_width
    &&& k1.ker_height <= h + 2 * conv_chip.padding_height
    &&& k1.ker_width <= w + 2 * conv_chip.padding_width
    &&& params.bn_params.0.scalars@.len() == k1.out_depth
    &&& k2.in_depth == k1.out_depth
    &&& k2.ker_height == conv_chip.ker_height
    &&& k2.ker_width == conv_chip.ker_width
    &&& k2.ker_height <= h1 + 2 * conv_chip.padding_height
    &&& k2.ker_width <= w1 + 2 * conv_chip.padding_width
    &&& params.bn_params.1.scalars@.len() == k2.out_depth
    &&& se_shapes_ok(k2.out_depth as int, params.se_params)
    &&& k2.out_depth == depth
    &&& conv_out_height(h1, k2, conv_chip.padding_height as int) == h
    &&& conv_out_width(w1, k2, conv_chip.padding_width as int) == w
}

/// The block's output cells, or `None` when some stage's witness fits no
/// decomposition.
pub open spec fn residual_block_spec(
    s: Seq<int>,
    depth: int,
    h: int,
    w: int,
    params: ResidualBlockChipParams,
    table: Seq<int>,
    lo: int,
    ph: int,
    pw: int,
) -> Option<Seq<int>> {
    let k1 = params.conv_params.0.kernals;
    let k2 = params.conv_params.1.kernals;
    let d1 = k1.out_depth as int;
    let h1 = conv_out_height(h, k1, ph);
    let w1 = conv_out_width(w, k1, pw);
    let c1 = conv_map(s, depth, h, w, k1, ph, pw);
    if !all_norm_in_range(c1) {
        None
    } else {
        let b1 = batchnorm_map(norm_map(c1), pairs(params.bn_params.0.scalars@), h1 * w1);
        if !all_norm_in_range(b1) {
            None
        } else {
            let c2 = conv_map(relu_norm_map(b1), d1, h1, w1, k2, ph, pw);
            if !all_norm_in_range(c2) {
                None
            } else {
                let d2 = k2.out_depth as int;
                let h2 = conv_out_height(h1, k2, ph);
                let w2 = conv_out_width(w1, k2, pw);
                let b2 = batchnorm_map(
                    norm_map(c2),
                    pairs(params.bn_params.1.scalars@),
                    h2 * w2,
                );
                if !all_norm_in_range(b2) {
                    None
                } else {
                    match squeeze_excitation_spec(
                        norm_map(b2),
                        d2,
                        h2,
                        w2,
                        params.se_params,
                        table,
                        lo,
                    ) {
                        Some(se) => {
                            let sum = add_seq(se, s);
                            if !all_in_mag(sum) {
                                None
                            } else {
                                Some(relu_map(sum))
                            }
                        },
                        None => None,
                    }
                }
            }
        }
    }
}

impl ResidualBlockChip {
    /// The layout this chip was built over.
    pub closed spec fn spec_config(self) -> ResidualBlockConfig {
        ResidualBlockConfig {
            conv_chip: self.conv_chip,
            bn_chip: self.bn_chip,
            norm_chip: self.norm_chip,
            relu_norm_chip: self.relu_norm_chip,
            se_chip: self.se_chip.spec_config(),
            residual_add_chip: self.residual_add_chip,
            relu_chip: self.relu_chip,
        }
    }

    /// Builds the chip over a configured layout.
    pub fn construct(config: ResidualBlockConfig) -> (chip: ResidualBlockChip)
        ensures
            chip.spec_config() == config,
    {
        ResidualBlockChip {
            conv_chip: config.conv_chip,
            bn_chip: config.bn_chip,
            norm_chip: config.norm_chip,
            relu_norm_chip: config.relu_norm_chip,
            se_chip: SqueezeExcitationBlockChip::construct(config.se_chip),
            residual_add_chip: config.residual_add_chip,
            relu_chip: config.relu_chip,
        }
    }

    /// Lays the block out: a squeeze-excitation block, the residual-add
    /// chip and a rectifier chip over fresh columns, with the shared
    /// convolution, renormalization and batch-norm chips threaded
    /// through.
    pub fn configure(
        meta: &mut ConstraintSystem,
        config_params: ResidualBlockChipConfig,
        advice_allocator: &mut ColumnAllocator,
        fixed_allocator: &mut ColumnAllocator,
    ) -> (config: ResidualBlockConfig)
        requires
            old(advice_allocator).kind == ColumnKind::Advice,
            old(fixed_allocator).kind == ColumnKind::Fixed,
            old(meta).num_advice + 68 <= usize::MAX,
            old(advice_allocator).taken + 68 <= usize::MAX,
            old(meta).num_fixed + 2 <= usize::MAX,
            old(fixed_allocator).taken + 2 <= usize::MAX,
            old(meta).num_gates + 10 <= usize::MAX,
            old(meta).num_lookups + 4 <= usize::MAX,
            seq_bounded(ints(config_params.sigmoid_table@), MAX_MAG as int),
            -(MAX_MAG as int) <= config_params.sigmoid_lo as int <= MAX_MAG as int,
            config_params.sigmoid_table@.len() <= MAX_MAG as int,
        ensures
            config.conv_chip == config_params.conv_chip,
            config.bn_chip == config_params.bn_chip,
            config.norm_chip == config_params.norm_chip,
            config.relu_norm_chip == config_params.norm_relu_chip,
            config.se_chip.lin_relu_chip == (EltwiseConfig {
                first_column: Column { kind: ColumnKind::Advice, index: old(meta).num_advice },
                num_columns: 8,
                range_table: config_params.range_table,
            }),
            config.se_chip.lin_norm_chip == config.se_chip.lin_relu_chip,
            config.se_chip.fc_chip_1 == (FcConfig {
                first_column: Column {
                    kind: ColumnKind::Advice,
                    index: (old(meta).num_advice + 8) as usize,
                },
                num_columns: 10,
                bias_column: Column { kind: ColumnKind::Fixed, index: old(meta).num_fixed },
                folding_factor: 16,
                weights_height: 32,
                weights_width: 128,
            }),
            config.se_chip.fc_chip_2 == (FcConfig {
                first_column: Column {
                    kind: ColumnKind::Advice,
                    index: (old(meta).num_advice + 18) as usize,
                },
                num_columns: 18,
                bias_column: Column {
                    kind: ColumnKind::Fixed,
                    index: (old(meta).num_fixed + 1) as usize,
                },
                folding_factor: 2,
                weights_height: 256,
                weights_width: 32,
            }),
            config.se_chip.avg_pool_chip == (ChannelwiseConfig {
                first_column: Column {
                    kind: ColumnKind::Advice,
                    index: (old(meta).num_advice + 36) as usize,
                },
                num_columns: 4,
            }),
            config.se_chip.dist_mul_chip == (ChannelwiseConfig {
                first_column: Column {
                    kind: ColumnKind::Advice,
                    index: (old(meta).num_advice + 40) as usize,
                },
                num_columns: 4,
            }),
            config.se_chip.dist_add_chip == (ChannelwiseConfig {
                first_column: Column {
                    kind: ColumnKind::Advice,
                    index: (old(meta).num_advice + 44) as usize,
                },
                num_columns: 4,
            }),
            config.se_chip.sigmoid_chip.wf(),
            config.se_chip.sigmoid_chip.table@ == config_params.sigmoid_table@,
            config.se_chip.sigmoid_chip.lo == config_params.sigmoid_lo,
            config.se_chip.sigmoid_chip.first_column == (Column {
                kind: ColumnKind::Advice,
                index: (old(meta).num_advice + 48) as usize,
            }),
            config.se_chip.sigmoid_chip.num_columns == 8,
            config.se_chip.norm_chip == config_params.norm_chip,
            config.residual_add_chip == (ChannelwiseConfig {
                first_column: Column {
                    kind: ColumnKind::Advice,
                    index: (old(meta).num_advice + 56) as usize,
                },
                num_columns: 4,
            }),
            config.relu_chip == (EltwiseConfig {
                first_column: Column {
                    kind: ColumnKind::Advice,
                    index: (old(meta).num_advice + 60) as usize,
                },
                num_columns: 8,
                range_table: config_params.range_table,
            }),
            final(meta).num_advice == old(meta).num_advice + 68,
            final(meta).num_fixed == old(meta).num_fixed + 2,
            final(meta).num_gates == old(meta).num_gates + 10,
            final(meta).num_lookups == old(meta).num_lookups + 4,
            final(meta).num_instance == old(meta).num_instance,
            final(meta).num_selectors == old(meta).num_selectors,
            final(advice_allocator).kind == ColumnKind::Advice,
            final(advice_allocator).taken == old(advice_allocator).taken + 68,
            final(fixed_allocator).kind == ColumnKind::Fixed,
            final(fixed_allocator).taken == old(fixed_allocator).taken + 2,
    {
        let ResidualBlockChipConfig {
            norm_relu_chip,
            norm_chip,
            bn_chip,
            conv_chip,
            range_table,
            sigmoid_table,
            sigmoid_lo,
        } = config_params;

        let se_params = SqueezeExcitationBlockChipConfig {
            range_table,
            norm_chip,
            sigmoid_table,
            sigmoid_lo,
        };
        let se_chip = SqueezeExcitationBlockChip::configure(
            meta,
            se_params,
            advice_allocator,
            fixed_allocator,
        );
        let residual_add_chip = ResidualAdd2DChip::configure(meta, advice_allocator);
        let relu_chip = Relu2DChip::configure(meta, advice_allocator, range_table);
        ResidualBlockConfig {
            conv_chip,
            bn_chip,
            norm_chip,
            relu_norm_chip: norm_relu_chip,
            se_chip,
            residual_add_chip,
            relu_chip,
        }
    }

    /// Runs the block: two convolution → renormalize → batch-norm
    /// stages, the squeeze-excitation gating, the residual addition
    /// against the block's input, and the final rectifier.
    pub fn add_layer(&self, input: &Tensor3, params: &ResidualBlockChipParams) -> (res: Result<
        Tensor3,
        CircuitError,
    >)
        requires
            input.wf(),
            input.bounded(MAX_MAG as int),
            params.conv_params.0.kernals.wf(),
            params.conv_params.0.kernals.bounded(MAX_MAG as int),
            params.conv_params.1.kernals.wf(),
            params.conv_params.1.kernals.bounded(MAX_MAG as int),
            pairs_bounded(
                pairs(params.bn_params.0.scalars@),
                MAX_MAG as int,
                MAX_MAG as int * SCALING_FACTOR as int,
            ),
            pairs_bounded(
                pairs(params.bn_params.1.scalars@),
                MAX_MAG as int,
                MAX_MAG as int * SCALING_FACTOR as int,
            ),
            input.depth * params.conv_params.0.kernals.ker_height
                * params.conv_params.0.kernals.ker_width <= MAX_TERMS,
            params.conv_params.0.kernals.out_depth * params.conv_params.1.kernals.ker_height
                * params.conv_params.1.kernals.ker_width <= MAX_TERMS,
            input.height <= MAX_TERMS,
            input.width <= MAX_TERMS,
            self.spec_config().conv_chip.padding_height <= MAX_TERMS,
            self.spec_config().conv_chip.padding_width <= MAX_TERMS,
            params.conv_params.0.kernals.out_depth * (input.height + 2
                * self.spec_config().conv_chip.padding_height + 1) * (input.width + 2
                * self.spec_config().conv_chip.padding_width + 1) <= usize::MAX,
            params.conv_params.1.kernals.out_depth * (input.height + 4
                * self.spec_config().conv_chip.padding_height + 2) * (input.width + 4
                * self.spec_config().conv_chip.padding_width + 2) <= usize::MAX,
            1 <= input.height * input.width <= MAX_TERMS,
            SCALING_FACTOR as int % (input.height * input.width) == 0,
            params.se_params.fc_params.0.weights.wf(),
            params.se_params.fc_params.0.weights.bounded(MAX_MAG as int),
            params.se_params.fc_params.0.weights.cols <= MAX_TERMS,
            seq_bounded(
                ints(params.se_params.fc_params.0.biases@),
                MAX_MAG as int * SCALING_FACTOR as int,
            ),
            params.se_params.fc_params.1.weights.wf(),
            params.se_params.fc_params.1.weights.bounded(MAX_MAG as int),
            params.se_params.fc_params.1.weights.cols <= MAX_TERMS,
            seq_bounded(
                ints(params.se_params.fc_params.1.biases@),
                MAX_MAG as int * SCALING_FACTOR as int,
            ),
            self.spec_config().se_chip.sigmoid_chip.wf(),
        ensures
            !residual_block_shapes_ok(
                self.spec_config().conv_chip,
                input.depth as int,
                input.height as int,
                input.width as int,
                *params,
            ) ==> res == Err::<Tensor3, CircuitError>(CircuitError::ShapeMismatch),
            residual_block_shapes_ok(
                self.spec_config().conv_chip,
                input.depth as int,
                input.height as int,
                input.width as int,
                *params,
            ) ==> match residual_block_spec(
                input.vals(),
                input.depth as int,
                input.height as int,
                input.width as int,
                *params,
                ints(self.spec_config().se_chip.sigmoid_chip.table@),
                self.spec_config().se_chip.sigmoid_chip.lo as int,
                self.spec_config().conv_chip.padding_height as int,
                self.spec_config().conv_chip.padding_width as int,
            ) {
                Some(v) => res matches Ok(out) && {
                    &&& out.wf()
                    &&& out.depth == input.depth
                    &&& out.height == input.height
                    &&& out.width == input.width
                    &&& out.vals() == v
                    &&& out.bounded(MAX_MAG as int)
                },
                None => res == Err::<Tensor3, CircuitError>(CircuitError::Unsatisfiable),
            },
    {
        let k1 = &params.conv_params.0.kernals;
        let k2 = &params.conv_params.1.kernals;
        let ph = self.conv_chip.padding_height;
        let pw = self.conv_chip.padding_width;
        if k1.in_depth != input.depth || k1.ker_height != self.conv_chip.ker_height
            || k1.ker_width != self.conv_chip.ker_width {
            return Err(CircuitError::ShapeMismatch);
        }
        if k1.ker_height > input.height + 2 * ph || k1.ker_width > input.width + 2 * pw {
            return Err(CircuitError::ShapeMismatch);
        }
        if params.bn_params.0.scalars.len() != k1.out_depth {
            return Err(CircuitError::ShapeMismatch);
        }
        let h1 = input.height + 2 * ph + 1 - k1.ker_height;
        let w1 = input.width + 2 * pw + 1 - k1.ker_width;
        if k2.in_depth != k1.out_depth || k2.ker_height != self.conv_chip.ker_height
            || k2.ker_width != self.conv_chip.ker_width {
            return Err(CircuitError::ShapeMismatch);
        }
        if k2.ker_height > h1 + 2 * ph || k2.ker_width > w1 + 2 * pw {
            return Err(CircuitError::ShapeMismatch);
        }
        if params.bn_params.1.scalars.len() != k2.out_depth {
            return Err(CircuitError::ShapeMismatch);
        }
        let w2p = &params.se_params.fc_params;
        if w2p.0.weights.cols != k2.out_depth || w2p.0.biases.len() != w2p.0.weights.rows
            || w2p.1.weights.cols != w2p.0.weights.rows || w2p.1.biases.len()
            != w2p.1.weights.rows || w2p.1.weights.rows % 2 != 0 || w2p.1.weights.rows / 2
            != k2.out_depth {
            return Err(CircuitError::ShapeMismatch);
        }
        let h2 = h1 + 2 * ph + 1 - k2.ker_height;
        let w2 = w1 + 2 * pw + 1 - k2.ker_width;
        if k2.out_depth != input.depth || h2 != input.height || w2 != input.width {
            return Err(CircuitError::ShapeMismatch);
        }

        let conv_chip = Conv3DLayerChip::construct(self.conv_chip);
        let bn_chip = BatchnormChip::construct(self.bn_chip);
        let norm_chip = Normalize2dChip::construct(self.norm_chip);
        let relu_norm_chip = ReluNorm2DChip::construct(self.relu_norm_chip);
        let residual_add_chip = ResidualAdd2DChip::construct(self.residual_add_chip);
        let relu_chip = Relu2DChip::construct(self.relu_chip);

        proof {
            lemma_quantization_constants();
            vstd::arithmetic::power2::lemma2_to64_rest();
            vstd::arithmetic::power2::lemma_pow2_adds(62, 62);
            vstd::arithmetic::power2::lemma_pow2_adds(40, 20);
            vstd::arithmetic::power2::lemma_pow2_strictly_increases(40, 62);
            vstd::arithmetic::power2::lemma_pow2_strictly_increases(60, 124);
        }

        let conv_output = match conv_chip.add_layer(input, &params.conv_params.0) {
            Ok(t) => t,
            Err(e) => {
                return Err(e);
            },
        };
        let norm_output = match norm_chip.add_layer(&conv_output) {
            Ok(t) => t,
            Err(e) => {
                return Err(e);
            },
        };
        let bn_output = match bn_chip.add_layer(&norm_output, &params.bn_params.0) {
            Ok(t) => t,
            Err(e) => {
                return Err(e);
            },
        };
        let relu_output = match relu_norm_chip.add_layer(&bn_output) {
            Ok(t) => t,
            Err(e) => {
                return Err(e);
            },
        };
        proof {
            assert(k2.out_depth as int * (relu_output.height + 2 * ph + 1) * (relu_output.width
                + 2 * pw + 1) <= k2.out_depth as int * (input.height + 4 * ph + 2) * (input.width
                + 4 * pw + 2)) by (nonlinear_arith)
                requires
                    0 <= relu_output.height + 2 * ph as int + 1 <= input.height + 4 * ph as int
                        + 2,
                    0 <= relu_output.width + 2 * pw as int + 1 <= input.width + 4 * pw as int + 2,
                    0 <= k2.out_depth,
            ;
        }
        let conv_2_output = match conv_chip.add_layer(&relu_output, &params.conv_params.1) {
            Ok(t) => t,
            Err(e) => {
                return Err(e);
            },
        };
        let norm_2_output = match norm_chip.add_layer(&conv_2_output) {
            Ok(t) => t,
            Err(e) => {
                return Err(e);
            },
        };
        let bn_2_output = match bn_chip.add_layer(&norm_2_output, &params.bn_params.1) {
            Ok(t) => t,
            Err(e) => {
                return Err(e);
            },
        };
        let norm_3_output = match norm_chip.add_layer(&bn_2_output) {
            Ok(t) => t,
            Err(e) => {
                return Err(e);
            },
        };
        let se_output = match self.se_chip.add_layer(&norm_3_output, &params.se_params) {
            Ok(t) => t,
            Err(e) => {
                return Err(e);
            },
        };
        let residual_output = match residual_add_chip.add_layer(&se_output, input) {
            Ok(t) => t,
            Err(e) => {
                return Err(e);
            },
        };
        relu_chip.add_layer(&residual_output)
    }

}

} // verus!

//! The convolution block: the network's entry block.
//!
//! One composite chip wiring convolution → renormalization → batch-norm
//! → fused rectifier-renormalization, each stage drawing from the shared
//! column pool and the shared range table.

use vstd::prelude::*;
use crate::columns::{Column, ColumnKind, ConstraintSystem, ColumnAllocator};
use crate::conv::{
    Conv3DLayerChip,
    Conv3DLayerConfig,
    Conv3DLayerConfigParams,
    Conv3DLayerParams,
    conv_map,
    conv_out_height,
    conv_out_width,
};
use crate::error::CircuitError;
use crate::linear::{
    BatchnormChip,
    BatchnormChipParams,
    ChannelwiseConfig,
    batchnorm_map,
    pairs,
    pairs_bounded,
    MAX_TERMS,
};
use crate::nonlinear::{
    EltwiseConfig,
    Normalize2dChip,
    ReluNorm2DChip,
    all_norm_in_range,
    norm_map,
    relu_norm_map,
};
use crate::quantize::{MAX_MAG, SCALING_FACTOR, lemma_quantization_constants};
use crate::tensor::Tensor3;

verus! {

/// Spatial height and width of the network's planes.
pub const PLANE_SIDE: usize = 8;

/// Input planes entering the convolution block.
pub const INPUT_PLANES: usize = 112;

/// Kernel side of every convolution in the network.
pub const KERNEL_SIDE: usize = 3;

/// Spatial padding of every convolution in the network.
pub const CONV_PADDING: usize = 1;

/// Column-folding factor of the block's convolution.
pub const CONV_FOLDING: usize = 16;

/// Layout of the whole block: the four sub-chips it composes.
#[derive(Clone, Copy, Debug)]
pub struct ConvBlockConfig {
    pub conv_chip: Conv3DLayerConfig,
    pub bn_chip: ChannelwiseConfig,
    pub norm_chip: EltwiseConfig,
    pub relu_chip: EltwiseConfig,
}

/// Constants of one block instantiation: the convolution kernel and the
/// per-channel batch-norm pairs.
#[derive(Clone, Debug)]
pub struct ConvBlockChipParams {
    pub conv_params: Conv3DLayerParams,
    pub bn_params: BatchnormChipParams,
}

/// What the block's configuration borrows from the surrounding circuit:
/// the shared elementwise and batch-norm chips.
pub struct ConvBlockChipConfig {
    pub norm_relu_chip: EltwiseConfig,
    pub norm_chip: EltwiseConfig,
    pub bn_chip: ChannelwiseConfig,
}

/// The convolution block chip.
pub struct ConvBlockChip {
    config: ConvBlockConfig,
}

/// Whether the supplied constants fit the block's configured shapes.
pub open spec fn conv_block_shapes_ok(
    conv_chip: Conv3DLayerConfig,
    depth: int,
    h: int,
    w: int,
    params: ConvBlockChipParams,
) -> bool {
    &&& params.conv_params.kernals.in_depth == depth
    &&& params.conv_params.kernals.ker_height == conv_chip.ker_height
    &&& params.conv_params.kernals.ker_width == conv_chip.ker_width
    &&& params.conv_params.kernals.ker_height <= h + 2 * conv_chip.padding_height
    &&& params.conv_params.kernals.ker_width <= w + 2 * conv_chip.padding_width
    &&& params.bn_params.scalars@.len() == params.conv_params.kernals.out_depth
}

/// The block's output cells, or `None` when some stage's witness fits no
/// decomposition: convolution, renormalization, the per-channel affine
/// pairs, then the fused rectifier-renormalization.
pub open spec fn conv_block_spec(
    s: Seq<int>,
    depth: int,
    h: int,
    w: int,
    params: ConvBlockChipParams,
    ph: int,
    pw: int,
) -> Option<Seq<int>> {
    let c = conv_map(s, depth, h, w, params.conv_params.kernals, ph, pw);
    if !all_norm_in_range(c) {
        None
    } else {
        let hw = conv_out_height(h, params.conv_params.kernals, ph) * conv_out_width(
            w,
            params.conv_params.kernals,
            pw,
        );
        let b = batchnorm_map(norm_map(c), pairs(params.bn_params.scalars@), hw);
        if !all_norm_in_range(b) {
            None
        } else {
            Some(relu_norm_map(b))
        }
    }
}

impl ConvBlockChip {
    /// The layout this chip was built over.
    pub closed spec fn spec_config(self) -> ConvBlockConfig {
        self.config
    }

    /// Builds the chip over a configured layout.
    pub fn construct(config: ConvBlockConfig) -> (chip: ConvBlockChip)
        ensures
            chip.spec_config() == config,
    {
        ConvBlockChip { config }
    }

    /// Lays the block out: a fresh convolution chip over the block's
    /// fixed input shape, with the shared renormalization, rectifier and
    /// batch-norm chips threaded through.
    pub fn configure(
        meta: &mut ConstraintSystem,
        config_params: ConvBlockChipConfig,
        advice_allocator: &mut ColumnAllocator,
        fixed_allocator: &mut ColumnAllocator,
    ) -> (config: ConvBlockConfig)
        requires
            old(advice_allocator).kind == ColumnKind::Advice,
            old(fixed_allocator).kind == ColumnKind::Fixed,
            old(meta).num_advice + 65 <= usize::MAX,
            old(advice_allocator).taken + 65 <= usize::MAX,
            old(meta).num_fixed < usize::MAX,
            old(fixed_allocator).taken < usize::MAX,
            old(meta).num_gates < usize::MAX,
        ensures
            config.conv_chip == (Conv3DLayerConfig {
                first_column: Column { kind: ColumnKind::Advice, index: old(meta).num_advice },
                num_columns: 65,
                kernal_column: Column { kind: ColumnKind::Fixed, index: old(meta).num_fixed },
                ker_height: KERNEL_SIDE as usize,
                ker_width: KERNEL_SIDE as usize,
                padding_height: CONV_PADDING as usize,
                padding_width: CONV_PADDING as usize,
            }),
            config.bn_chip == config_params.bn_chip,
            config.norm_chip == config_params.norm_chip,
            config.relu_chip == config_params.norm_relu_chip,
            final(meta).num_advice == old(meta).num_advice + 65,
            final(meta).num_fixed == old(meta).num_fixed + 1,
            final(meta).num_gates == old(meta).num_gates + 1,
            final(meta).num_instance == old(meta).num_instance,
            final(meta).num_selectors == old(meta).num_selectors,
            final(meta).num_lookups == old(meta).num_lookups,
            final(advice_allocator).kind == ColumnKind::Advice,
            final(advice_allocator).taken == old(advice_allocator).taken + 65,
            final(fixed_allocator).kind == ColumnKind::Fixed,
            final(fixed_allocator).taken == old(fixed_allocator).taken + 1,
    {
        let conv_config = Conv3DLayerConfigParams {
            input_height: PLANE_SIDE,
            input_width: PLANE_SIDE,
            input_depth: INPUT_PLANES,
            ker_height: KERNEL_SIDE,
            ker_width: KERNEL_SIDE,
            padding_width: CONV_PADDING,
            padding_height: CONV_PADDING,
            folding_factor: CONV_FOLDING,
        };
        proof {
            assert(INPUT_PLANES as int * KERNEL_SIDE as int * KERNEL_SIDE as int == 1008)
                by (nonlinear_arith)
                requires
                    INPUT_PLANES == 112,
                    KERNEL_SIDE == 3,
            ;
            assert(1008int / (CONV_FOLDING as int) == 63) by (nonlinear_arith)
                requires
                    CONV_FOLDING == 16,
            ;
        }
        let conv_chip = Conv3DLayerChip::configure(
            meta,
            conv_config,
            advice_allocator,
            fixed_allocator,
        );
        ConvBlockConfig {
            conv_chip,
            bn_chip: config_params.bn_chip,
            relu_chip: config_params.norm_relu_chip,
            norm_chip: config_params.norm_chip,
        }
    }

    /// Runs the block: convolution, renormalization, the per-channel
    /// affine transform, and the fused rectifier-renormalization, in
    /// that order.  A shape disagreement is a configuration defect; a
    /// witness outside its decomposition leaves the circuit
    /// unsatisfiable.
    pub fn add_layer(&self, input: &Tensor3, params: &ConvBlockChipParams) -> (res: Result<
        Tensor3,
        CircuitError,
    >)
        requires
            input.wf(),
            params.conv_params.kernals.wf(),
            input.bounded(MAX_MAG as int),
            params.conv_params.kernals.bounded(MAX_MAG as int),
            pairs_bounded(
                pairs(params.bn_params.scalars@),
                MAX_MAG as int,
                MAX_MAG as int * SCALING_FACTOR as int,
            ),
            input.depth * params.conv_params.kernals.ker_height
                * params.conv_params.kernals.ker_width <= MAX_TERMS,
            input.height <= MAX_TERMS,
            input.width <= MAX_TERMS,
            self.spec_config().conv_chip.padding_height <= MAX_TERMS,
            self.spec_config().conv_chip.padding_width <= MAX_TERMS,
            params.conv_params.kernals.out_depth * (input.height + 2
                * self.spec_config().conv_chip.padding_height + 1) * (input.width + 2
                * self.spec_config().conv_chip.padding_width + 1) <= usize::MAX,
        ensures
            !conv_block_shapes_ok(
                self.spec_config().conv_chip,
                input.depth as int,
                input.height as int,
                input.width as int,
                *params,
            ) ==> res == Err::<Tensor3, CircuitError>(CircuitError::ShapeMismatch),
            conv_block_shapes_ok(
                self.spec_config().conv_chip,
                input.depth as int,
                input.height as int,
                input.width as int,
                *params,
            ) ==> match conv_block_spec(
                input.vals(),
                input.depth as int,
                input.height as int,
                input.width as int,
                *params,
                self.spec_config().conv_chip.padding_height as int,
                self.spec_config().conv_chip.padding_width as int,
            ) {
                Some(v) => res matches Ok(out) && {
                    &&& out.wf()
                    &&& out.depth == params.conv_params.kernals.out_depth
                    &&& out.height == conv_out_height(
                        input.height as int,
                        params.conv_params.kernals,
                        self.spec_config().conv_chip.padding_height as int,
                    )
                    &&& out.width == conv_out_width(
                        input.width as int,
                        params.conv_params.kernals,
                        self.spec_config().conv_chip.padding_width as int,
                    )
                    &&& out.vals() == v
                    &&& out.bounded(MAX_MAG as int)
                },
                None => res == Err::<Tensor3, CircuitError>(CircuitError::Unsatisfiable),
            },
    {
        let ker = &params.conv_params.kernals;
        if ker.in_depth != input.depth || ker.ker_height != self.config.conv_chip.ker_height
            || ker.ker_width != self.config.conv_chip.ker_width {
            return Err(CircuitError::ShapeMismatch);
        }
        if ker.ker_height > input.height + 2 * self.config.conv_chip.padding_height
            || ker.ker_width > input.width + 2 * self.config.conv_chip.padding_width {
            return Err(CircuitError::ShapeMismatch);
        }
        if params.bn_params.scalars.len() != ker.out_depth {
            return Err(CircuitError::ShapeMismatch);
        }
        let conv_chip = Conv3DLayerChip::construct(self.config.conv_chip);
        let bn_chip = BatchnormChip::construct(self.config.bn_chip);
        let norm_chip = Normalize2dChip::construct(self.config.norm_chip);
        let relu_chip = ReluNorm2DChip::construct(self.config.relu_chip);

        proof {
            lemma_quantization_constants();
            vstd::arithmetic::power2::lemma2_to64_rest();
            vstd::arithmetic::power2::lemma_pow2_adds(62, 62);
            vstd::arithmetic::power2::lemma_pow2_adds(40, 20);
            vstd::arithmetic::power2::lemma_pow2_strictly_increases(40, 62);
            vstd::arithmetic::power2::lemma_pow2_strictly_increases(60, 124);
        }
        let conv_output = match conv_chip.add_layer(input, &params.conv_params) {
            Ok(t) => t,
            Err(e) => {
                return Err(e);
            },
        };
        let norm_output = match norm_chip.add_layer(&conv_output) {
            Ok(t) => t,
            Err(e) => {
                return Err(e);
            },
        };
        let bn_output = match bn_chip.add_layer(&norm_output, &params.bn_params) {
            Ok(t) => t,
            Err(e) => {
                return Err(e);
            },
        };
        relu_chip.add_layer(&bn_output)
    }
}

} // verus!

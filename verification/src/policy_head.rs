//! The policy head: the network's output block.
//!
//! A convolution stage, a second convolution projecting to the output
//! planes, a fixed per-channel bias, a final renormalization, and the
//! gather that reorders the flattened planes into the externally
//! expected move-encoding layout.

use vstd::prelude::*;
use crate::columns::{Column, ColumnKind, ConstraintSystem, ColumnAllocator};
use crate::conv::{
    Conv3DLayerChip,
    Conv3DLayerConfig,
    Conv3DLayerParams,
    conv_map,
    conv_out_height,
    conv_out_width,
};
use crate::error::CircuitError;
use crate::linear::{
    BatchnormChip,
    BatchnormChipParams,
    ChannelwiseConfig,
    DistributedAddFixedChip,
    DistributedAddFixedChipParams,
    batchnorm_map,
    dist_add_map,
    gather,
    pairs,
    pairs_bounded,
    MAX_TERMS,
    WIDE_LIMIT,
};
use crate::nonlinear::{
    EltwiseConfig,
    Normalize2dChip,
    ReluNorm2DChip,
    all_norm_in_range,
    norm_map,
    relu_norm_map,
};
use crate::quantize::{MAX_MAG, SCALING_FACTOR, lemma_quantization_constants};
use crate::tensor::{Tensor3, ints, seq_bounded};

verus! {

/// Layout of the whole head: the sub-chips it composes.
#[derive(Clone, Copy, Debug)]
pub struct PolicyHeadConfig {
    pub conv_chip: Conv3DLayerConfig,
    pub bn_chip: ChannelwiseConfig,
    pub norm_chip: EltwiseConfig,
    pub relu_chip: EltwiseConfig,
    pub dist_add_chip: ChannelwiseConfig,
}

/// Constants of one head instantiation: the two kernels, the batch-norm
/// pairs, the fixed output bias, and the static gather permutation.
#[derive(Debug)]
pub struct PolicyHeadChipParams {
    pub conv_1_params: Conv3DLayerParams,
    pub conv_2_params: Conv3DLayerParams,
    pub bn_params: BatchnormChipParams,
    pub bias_params: DistributedAddFixedChipParams,
    pub gather_map: Vec<usize>,
}

/// What the head's configuration borrows from the surrounding circuit.
pub struct PolicyHeadChipConfig {
    pub norm_relu_chip: EltwiseConfig,
    pub norm_chip: EltwiseConfig,
    pub bn_chip: ChannelwiseConfig,
    pub conv_chip: Conv3DLayerConfig,
}

/// The policy head chip.
pub struct PolicyHeadChip {
    config: PolicyHeadConfig,
}

/// Whether the supplied constants fit the head's configured shapes, and
/// the gather map stays inside the flattened output.
pub open spec fn policy_head_shapes_ok(
    conv_chip: Conv3DLayerConfig,
    depth: int,
    h: int,
    w: int,
    params: PolicyHeadChipParams,
) -> bool {
    let k1 = params.conv_1_params.kernals;
    let k2 = params.conv_2_params.kernals;
    let h1 = conv_out_height(h, k1, conv_chip.padding_height as int);
    let w1 = conv_out_width(w, k1, conv_chip.padding_width as int);
    let h2 = conv_out_height(h1, k2, conv_chip.padding_height as int);
    let w2 = conv_out_width(w1, k2, conv_chip.padding_width as int);
    &&& k1.in_depth == depth
    &&& k1.ker_height == conv_chip.ker_height
    &&& k1.ker_width == conv_chip.ker_width
    &&& k1.ker_height <= h + 2 * conv_chip.padding_height
    &&& k1.ker_width <= w + 2 * conv_chip.padding_width
    &&& params.bn_params.scalars@.len() == k1.out_depth
    &&& k2.in_depth == k1.out_depth
    &&& k2.ker_height == conv_chip.ker_height
    &&& k2.ker_width == conv_chip.ker_width
    &&& k2.ker_height <= h1 + 2 * conv_chip.padding_height
    &&& k2.ker_width <= w1 + 2 * conv_chip.padding_width
    &&& params.bias_params.scalars@.len() == k2.out_depth
    &&& forall|i: int|
        0 <= i < params.gather_map@.len() ==> (#[trigger] params.gather_map@[i]) < k2.out_depth
            * h2 * w2
}

/// The head's output values, or `None` when some stage's witness fits no
/// decomposition.
pub open spec fn policy_head_spec(
    s: Seq<int>,
    depth: int,
    h: int,
    w: int,
    params: PolicyHeadChipParams,
    ph: int,
    pw: int,
) -> Option<Seq<int>> {
    let k1 = params.conv_1_params.kernals;
    let k2 = params.conv_2_params.kernals;
    let d1 = k1.out_depth as int;
    let h1 = conv_out_height(h, k1, ph);
    let w1 = conv_out_width(w, k1, pw);
    let c1 = conv_map(s, depth, h, w, k1, ph, pw);
    if !all_norm_in_range(c1) {
        None
    } else {
        let b1 = batchnorm_map(norm_map(c1), pairs(params.bn_params.scalars@), h1 * w1);
        if !all_norm_in_range(b1) {
            None
        } else {
            let c2 = conv_map(relu_norm_map(b1), d1, h1, w1, k2, ph, pw);
            let h2 = conv_out_height(h1, k2, ph);
            let w2 = conv_out_width(w1, k2, pw);
            let biased = dist_add_map(c2, ints(params.bias_params.scalars@), h2 * w2);
            if !all_norm_in_range(biased) {
                None
            } else {
                let n2 = norm_map(biased);
                Some(Seq::new(params.gather_map@.len(), |i: int| n2[params.gather_map@[i] as int]))
            }
        }
    }
}

impl PolicyHeadChip {
    /// The layout this chip was built over.
    pub closed spec fn spec_config(self) -> PolicyHeadConfig {
        self.config
    }

    /// Builds the chip over a configured layout.
    pub fn construct(config: PolicyHeadConfig) -> (chip: PolicyHeadChip)
        ensures
            chip.spec_config() == config,
    {
        PolicyHeadChip { config }
    }

    /// Lays the head out: a fixed distributed-add chip for the output
    /// bias over fresh columns, with the shared convolution,
    /// renormalization, rectifier and batch-norm chips threaded through.
    pub fn configure(
        meta: &mut ConstraintSystem,
        config_params: PolicyHeadChipConfig,
        advice_allocator: &mut ColumnAllocator,
        fixed_allocator: &mut ColumnAllocator,
    ) -> (config: PolicyHeadConfig)
        requires
            old(advice_allocator).kind == ColumnKind::Advice,
            old(meta).num_advice + 4 <= usize::MAX,
            old(advice_allocator).taken + 4 <= usize::MAX,
            old(meta).num_gates < usize::MAX,
        ensures
            config.conv_chip == config_params.conv_chip,
            config.bn_chip == config_params.bn_chip,
            config.norm_chip == config_params.norm_chip,
            config.relu_chip == config_params.norm_relu_chip,
            config.dist_add_chip == (ChannelwiseConfig {
                first_column: Column { kind: ColumnKind::Advice, index: old(meta).num_advice },
                num_columns: 4,
            }),
            final(meta).num_advice == old(meta).num_advice + 4,
            final(meta).num_gates == old(meta).num_gates + 1,
            final(meta).num_fixed == old(meta).num_fixed,
            final(meta).num_instance == old(meta).num_instance,
            final(meta).num_selectors == old(meta).num_selectors,
            final(meta).num_lookups == old(meta).num_lookups,
            final(advice_allocator).kind == ColumnKind::Advice,
            final(advice_allocator).taken == old(advice_allocator).taken + 4,
    {
        let PolicyHeadChipConfig { norm_relu_chip, norm_chip, bn_chip, conv_chip } = config_params;
        let dist_add_chip = DistributedAddFixedChip::configure(meta, advice_allocator);
        PolicyHeadConfig {
            conv_chip,
            bn_chip,
            norm_chip,
            relu_chip: norm_relu_chip,
            dist_add_chip,
        }
    }

    /// Runs the head: two convolutions around a renormalize → batch-norm
    /// → rectify stage, the fixed output bias, the final
    /// renormalization, and the gather into the output ordering.
    pub fn add_layer(&self, input: &Tensor3, params: &PolicyHeadChipParams) -> (res: Result<
        Vec<i128>,
        CircuitError,
    >)
        requires
            input.wf(),
            input.bounded(MAX_MAG as int),
            params.conv_1_params.kernals.wf(),
            params.conv_1_params.kernals.bounded(MAX_MAG as int),
            params.conv_2_params.kernals.wf(),
            params.conv_2_params.kernals.bounded(MAX_MAG as int),
            pairs_bounded(
                pairs(params.bn_params.scalars@),
                MAX_MAG as int,
                MAX_MAG as int * SCALING_FACTOR as int,
            ),
            seq_bounded(
                ints(params.bias_params.scalars@),
                MAX_MAG as int * SCALING_FACTOR as int,
            ),
            input.depth * params.conv_1_params.kernals.ker_height
                * params.conv_1_params.kernals.ker_width <= MAX_TERMS,
            params.conv_1_params.kernals.out_depth * params.conv_2_params.kernals.ker_height
                * params.conv_2_params.kernals.ker_width <= MAX_TERMS,
            input.height <= MAX_TERMS,
            input.width <= MAX_TERMS,
            self.spec_config().conv_chip.padding_height <= MAX_TERMS,
            self.spec_config().conv_chip.padding_width <= MAX_TERMS,
            params.conv_1_params.kernals.out_depth * (input.height + 2
                * self.spec_config().conv_chip.padding_height + 1) * (input.width + 2
                * self.spec_config().conv_chip.padding_width + 1) <= usize::MAX,
            params.conv_2_params.kernals.out_depth * (input.height + 4
                * self.spec_config().conv_chip.padding_height + 2) * (input.width + 4
                * self.spec_config().conv_chip.padding_width + 2) <= usize::MAX,
            conv_out_height(
                input.height as int,
                params.conv_1_params.kernals,
                self.spec_config().conv_chip.padding_height as int,
            ) <= MAX_TERMS,
            conv_out_width(
                input.width as int,
                params.conv_1_params.kernals,
                self.spec_config().conv_chip.padding_width as int,
            ) <= MAX_TERMS,
        ensures
            !policy_head_shapes_ok(
                self.spec_config().conv_chip,
                input.depth as int,
                input.height as int,
                input.width as int,
                *params,
            ) ==> res == Err::<Vec<i128>, CircuitError>(CircuitError::ShapeMismatch),
            policy_head_shapes_ok(
                self.spec_config().conv_chip,
                input.depth as int,
                input.height as int,
                input.width as int,
                *params,
            ) ==> match policy_head_spec(
                input.vals(),
                input.depth as int,
                input.height as int,
                input.width as int,
                *params,
                self.spec_config().conv_chip.padding_height as int,
                self.spec_config().conv_chip.padding_width as int,
            ) {
                Some(v) => res matches Ok(out) && {
                    &&& out@.len() == params.gather_map@.len()
                    &&& ints(out@) == v
                    &&& seq_bounded(ints(out@), MAX_MAG as int)
                },
                None => res == Err::<Vec<i128>, CircuitError>(CircuitError::Unsatisfiable),
            },
    {
        let k1 = &params.conv_1_params.kernals;
        let k2 = &params.conv_2_params.kernals;
        let ph = self.config.conv_chip.padding_height;
        let pw = self.config.conv_chip.padding_width;
        if k1.in_depth != input.depth || k1.ker_height != self.config.conv_chip.ker_height
            || k1.ker_width != self.config.conv_chip.ker_width {
            return Err(CircuitError::ShapeMismatch);
        }
        if k1.ker_height > input.height + 2 * ph || k1.ker_width > input.width + 2 * pw {
            return Err(CircuitError::ShapeMismatch);
        }
        if params.bn_params.scalars.len() != k1.out_depth {
            return Err(CircuitError::ShapeMismatch);
        }
        let h1 = input.height + 2 * ph + 1 - k1.ker_height;
        let w1 = input.width + 2 * pw + 1 - k1.ker_width;
        if k2.in_depth != k1.out_depth || k2.ker_height != self.config.conv_chip.ker_height
            || k2.ker_width != self.config.conv_chip.ker_width {
            return Err(CircuitError::ShapeMismatch);
        }
        if k2.ker_height > h1 + 2 * ph || k2.ker_width > w1 + 2 * pw {
            return Err(CircuitError::ShapeMismatch);
        }
        if params.bias_params.scalars.len() != k2.out_depth {
            return Err(CircuitError::ShapeMismatch);
        }
        let h2 = h1 + 2 * ph + 1 - k2.ker_height;
        let w2 = w1 + 2 * pw + 1 - k2.ker_width;
        proof {
            assert(k2.out_depth as int * h2 as int * w2 as int <= k2.out_depth as int
                * (input.height + 4 * ph as int + 2) * (input.width + 4 * pw as int + 2))
                by (nonlinear_arith)
                requires
                    0 <= h2 as int <= input.height + 4 * ph as int + 2,
                    0 <= w2 as int <= input.width + 4 * pw as int + 2,
                    0 <= k2.out_depth,
            ;
        }
        let flat_len: usize = if k2.out_depth == 0 || h2 == 0 || w2 == 0 {
            proof {
                assert(k2.out_depth as int * h2 as int * w2 as int == 0) by (nonlinear_arith)
                    requires
                        k2.out_depth == 0 || h2 as int == 0 || w2 as int == 0,
                ;
            }
            0
        } else {
            proof {
                assert(k2.out_depth as int * h2 as int <= k2.out_depth as int * h2 as int * w2
                    as int) by (nonlinear_arith)
                    requires
                        w2 as int >= 1,
                        k2.out_depth as int >= 0,
                        h2 as int >= 0,
                ;
            }
            match k2.out_depth.checked_mul(h2) {
                Some(a) => match a.checked_mul(w2) {
                    Some(b) => b,
                    None => {
                        return Err(CircuitError::ShapeMismatch);
                    },
                },
                None => {
                    return Err(CircuitError::ShapeMismatch);
                },
            }
        };
        let ghost spec_flat: int = {
            let cc = self.spec_config().conv_chip;
            let sk1 = params.conv_1_params.kernals;
            let sk2 = params.conv_2_params.kernals;
            let h1s = conv_out_height(input.height as int, sk1, cc.padding_height as int);
            let w1s = conv_out_width(input.width as int, sk1, cc.padding_width as int);
            sk2.out_depth * conv_out_height(h1s, sk2, cc.padding_height as int) * conv_out_width(
                w1s,
                sk2,
                cc.padding_width as int,
            )
        };
        proof {
            assert(flat_len as int == spec_flat);
        }
        let mut gi: usize = 0;
        while gi < params.gather_map.len()
            invariant
                gi <= params.gather_map@.len(),
                flat_len as int == spec_flat,
                spec_flat == ({
                    let cc = self.spec_config().conv_chip;
                    let sk1 = params.conv_1_params.kernals;
                    let sk2 = params.conv_2_params.kernals;
                    let h1s = conv_out_height(input.height as int, sk1, cc.padding_height as int);
                    let w1s = conv_out_width(input.width as int, sk1, cc.padding_width as int);
                    sk2.out_depth * conv_out_height(h1s, sk2, cc.padding_height as int)
                        * conv_out_width(w1s, sk2, cc.padding_width as int)
                }),
                forall|i: int| 0 <= i < gi ==> (#[trigger] params.gather_map@[i]) < flat_len,
            decreases params.gather_map@.len() - gi,
        {
            if params.gather_map[gi] >= flat_len {
                proof {
                    if policy_head_shapes_ok(
                        self.spec_config().conv_chip,
                        input.depth as int,
                        input.height as int,
                        input.width as int,
                        *params,
                    ) {
                        assert(params.gather_map@[gi as int] < spec_flat);
                        assert(false);
                    }
                }
                return Err(CircuitError::ShapeMismatch);
            }
            gi = gi + 1;
        }

        let conv_chip = Conv3DLayerChip::construct(self.config.conv_chip);
        let bn_chip = BatchnormChip::construct(self.config.bn_chip);
        let norm_chip = Normalize2dChip::construct(self.config.norm_chip);
        let relu_chip = ReluNorm2DChip::construct(self.config.relu_chip);
        let dist_add_fixed_chip = DistributedAddFixedChip::construct(self.config.dist_add_chip);

        proof {
            lemma_quantization_constants();
            vstd::arithmetic::power2::lemma2_to64_rest();
            vstd::arithmetic::power2::lemma_pow2_adds(62, 62);
            vstd::arithmetic::power2::lemma_pow2_adds(40, 20);
            vstd::arithmetic::power2::lemma_pow2_strictly_increases(40, 62);
            vstd::arithmetic::power2::lemma_pow2_strictly_increases(60, 124);
            assert(MAX_TERMS as int * (MAX_MAG * MAX_MAG) <= WIDE_LIMIT as int
                && MAX_MAG as int * SCALING_FACTOR as int <= WIDE_LIMIT as int)
                by (nonlinear_arith)
                requires
                    MAX_TERMS == 65536,
                    MAX_MAG == 1099511627776i128,
                    SCALING_FACTOR == 1048576,
                    WIDE_LIMIT == 0x3fffffffffffffffffffffffffffffffi128,
            ;
        }

        let conv_output = match conv_chip.add_layer(input, &params.conv_1_params) {
            Ok(t) => t,
            Err(e) => {
                return Err(e);
            },
        };
        let norm_output = match norm_chip.add_layer(&conv_output) {
            Ok(t) => t,
            Err(e) => {
                return Err(e);
            },
        };
        let bn_output = match bn_chip.add_layer(&norm_output, &params.bn_params) {
            Ok(t) => t,
            Err(e) => {
                return Err(e);
            },
        };
        let relu_output = match relu_chip.add_layer(&bn_output) {
            Ok(t) => t,
            Err(e) => {
                return Err(e);
            },
        };
        proof {
            assert(k2.out_depth as int * (relu_output.height + 2 * ph + 1) * (relu_output.width
                + 2 * pw + 1) <= k2.out_depth as int * (input.height + 4 * ph + 2) * (input.width
                + 4 * pw + 2)) by (nonlinear_arith)
                requires
                    0 <= relu_output.height + 2 * ph as int + 1 <= input.height + 4 * ph as int
                        + 2,
                    0 <= relu_output.width + 2 * pw as int + 1 <= input.width + 4 * pw as int + 2,
                    0 <= k2.out_depth,
            ;
        }
        let conv_2_output = match conv_chip.add_layer(&relu_output, &params.conv_2_params) {
            Ok(t) => t,
            Err(e) => {
                return Err(e);
            },
        };
        let bias_output = match dist_add_fixed_chip.add_layer(&conv_2_output, &params.bias_params)
            {
            Ok(t) => t,
            Err(e) => {
                return Err(e);
            },
        };
        let norm_2_output = match norm_chip.add_layer(&bias_output) {
            Ok(t) => t,
            Err(e) => {
                return Err(e);
            },
        };
        proof {
            assert(norm_2_output.data@.len() == k2.out_depth as int * h2 as int * w2 as int) by {
                assert(norm_2_output.depth * (norm_2_output.height * norm_2_output.width)
                    == norm_2_output.depth * norm_2_output.height * norm_2_output.width)
                    by (nonlinear_arith);
            }
        }
        let out = match gather(&norm_2_output.data, &params.gather_map) {
            Ok(v) => v,
            Err(e) => {
                return Err(e);
            },
        };
        proof {
            let v = policy_head_spec(
                input.vals(),
                input.depth as int,
                input.height as int,
                input.width as int,
                *params,
                ph as int,
                pw as int,
            );
            assert(v matches Some(s) ==> ints(out@) =~= s) by {
                if v is Some {
                    assert forall|i: int| 0 <= i < out@.len() implies ints(out@)[i]
                        == v.unwrap()[i] by {
                        assert(out@[i] == norm_2_output.data@[params.gather_map@[i] as int]);
                        assert(norm_2_output.vals()[params.gather_map@[i] as int]
                            == norm_2_output.data@[params.gather_map@[i] as int] as int);
                    }
                }
            }
            assert(v matches Some(s) ==> seq_bounded(ints(out@), MAX_MAG as int)) by {
                if v is Some {
                    assert forall|i: int| 0 <= i < out@.len() implies -(MAX_MAG as int)
                        <= #[trigger] ints(out@)[i] <= MAX_MAG as int by {
                        assert(out@[i] == norm_2_output.data@[params.gather_map@[i] as int]);
                        assert(norm_2_output.vals()[params.gather_map@[i] as int]
                            == norm_2_output.data@[params.gather_map@[i] as int] as int);
                    }
                }
            }
        }
        Ok(out)
    }
}

} // verus!

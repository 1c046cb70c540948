//! Linear-algebra chips: the per-channel affine transform, distributed
//! scalar operations, the fully-connected projection, average pooling,
//! residual addition and the output gather.
//!
//! These chips register purely polynomial constraints — no lookups — so
//! they accept any decomposition-bounded witness; it is the surrounding
//! renormalization chips that bring their wide outputs back to the
//! quantized domain.

use vstd::prelude::*;
use vstd::arithmetic::power2::pow2;
use vstd::arithmetic::div_mod::{
    lemma_fundamental_div_mod_converse_div,
    lemma_div_pos_is_pos,
    lemma_multiply_divide_lt,
};
use crate::columns::{Column, ColumnKind, ConstraintSystem, ColumnAllocator};
use crate::error::CircuitError;
use crate::quantize::{norm_spec, norm_in_range, normalize, MAX_MAG, SCALING_FACTOR};
use crate::tensor::{Tensor3, Matrix, ints, seq_bounded};

verus! {

/// Most summands any folded sum-of-products may draw together: bounds
/// every accumulator the linear chips can produce.
pub const MAX_TERMS: usize = 65536;

/// Largest magnitude one per-channel affine cell can reach from
/// decomposition-bounded inputs.
pub open spec fn affine_bound() -> int {
    MAX_MAG * MAX_MAG + MAX_MAG * SCALING_FACTOR
}

/// Largest magnitude a folded sum-of-products cell can reach.
pub open spec fn accum_bound() -> int {
    MAX_TERMS * MAX_MAG * MAX_MAG + MAX_MAG * SCALING_FACTOR
}

/// The integer pairs behind per-channel scalar pairs.
pub open spec fn pairs(s: Seq<(i128, i128)>) -> Seq<(int, int)> {
    s.map_values(|p: (i128, i128)| (p.0 as int, p.1 as int))
}

/// Whether every pair's members lie within `[-a, a]` and `[-b, b]`.
pub open spec fn pairs_bounded(s: Seq<(int, int)>, a: int, b: int) -> bool {
    forall|i: int|
        0 <= i < s.len() ==> -a <= (#[trigger] s[i]).0 <= a && -b <= s[i].1 <= b
}

/// A flat position's channel lies below the tensor's depth.
pub proof fn lemma_flat_channel_in_range(i: int, depth: int, hw: int)
    requires
        0 <= i < depth * hw,
        0 < hw,
    ensures
        0 <= i / hw < depth,
{
    lemma_div_pos_is_pos(i, hw);
    vstd::arithmetic::mul::lemma_mul_is_commutative(depth, hw);
    lemma_multiply_divide_lt(i, hw, depth);
}

/// The per-channel affine map: every cell of channel `c` becomes
/// `cell * scale[c] + shift[c]`.
pub open spec fn batchnorm_map(s: Seq<int>, scalars: Seq<(int, int)>, hw: int) -> Seq<int> {
    Seq::new(s.len(), |i: int| s[i] * scalars[i / hw].0 + scalars[i / hw].1)
}

/// The per-channel product map.
pub open spec fn dist_mul_map(s: Seq<int>, scalars: Seq<int>, hw: int) -> Seq<int> {
    Seq::new(s.len(), |i: int| s[i] * scalars[i / hw])
}

/// The per-channel sum map.
pub open spec fn dist_add_map(s: Seq<int>, scalars: Seq<int>, hw: int) -> Seq<int> {
    Seq::new(s.len(), |i: int| s[i] + scalars[i / hw])
}

/// The elementwise sum of two equal-shape tensors.
pub open spec fn add_seq(a: Seq<int>, b: Seq<int>) -> Seq<int> {
    Seq::new(a.len(), |i: int| a[i] + b[i])
}

/// Per-channel constants of the batch-norm chip: the folded
/// (scale, shift) pair of each channel.
#[derive(Clone, Debug)]
pub struct BatchnormChipParams {
    pub scalars: Vec<(i128, i128)>,
}

/// Layout of a chip that walks a tensor channel by channel: input and
/// output columns plus the per-channel scalar columns, and its gate.
#[derive(Clone, Copy, Debug, PartialEq, Eq, Structural)]
pub struct ChannelwiseConfig {
    pub first_column: Column,
    pub num_columns: usize,
}

/// Advice columns a channel-walking chip draws: input, scalar pair and
/// output per walked row.
pub const CHANNELWISE_ADVICE: usize = 4;

/// Lays out one channel-walking chip: fresh advice columns and one gate.
fn configure_channelwise(
    meta: &mut ConstraintSystem,
    advice_allocator: &mut ColumnAllocator,
) -> (config: ChannelwiseConfig)
    requires
        old(advice_allocator).kind == ColumnKind::Advice,
        old(meta).num_advice + CHANNELWISE_ADVICE <= usize::MAX,
        old(advice_allocator).taken + CHANNELWISE_ADVICE <= usize::MAX,
        old(meta).num_gates < usize::MAX,
    ensures
        config.first_column == (Column { kind: ColumnKind::Advice, index: old(meta).num_advice }),
        config.num_columns == CHANNELWISE_ADVICE,
        final(meta).num_advice == old(meta).num_advice + CHANNELWISE_ADVICE,
        final(meta).num_gates == old(meta).num_gates + 1,
        final(meta).num_fixed == old(meta).num_fixed,
        final(meta).num_instance == old(meta).num_instance,
        final(meta).num_selectors == old(meta).num_selectors,
        final(meta).num_lookups == old(meta).num_lookups,
        final(advice_allocator).kind == ColumnKind::Advice,
        final(advice_allocator).taken == old(advice_allocator).taken + CHANNELWISE_ADVICE,
{
    let columns = advice_allocator.take(meta, CHANNELWISE_ADVICE);
    let first_column = columns[0];
    meta.create_gate();
    ChannelwiseConfig { first_column, num_columns: CHANNELWISE_ADVICE }
}

/// The batch-norm chip: applies each channel's folded affine pair to
/// every cell of that channel.
pub struct BatchnormChip {
    config: ChannelwiseConfig,
}

impl BatchnormChip {
    /// The layout this chip was built over.
    pub closed spec fn spec_config(self) -> ChannelwiseConfig {
        self.config
    }

    /// Builds the chip over a configured layout.
    pub fn construct(config: ChannelwiseConfig) -> (chip: BatchnormChip)
        ensures
            chip.spec_config() == config,
    {
        BatchnormChip { config }
    }

    /// Lays the chip out over fresh columns.
    pub fn configure(
        meta: &mut ConstraintSystem,
        advice_allocator: &mut ColumnAllocator,
    ) -> (config: ChannelwiseConfig)
        requires
            old(advice_allocator).kind == ColumnKind::Advice,
            old(meta).num_advice + CHANNELWISE_ADVICE <= usize::MAX,
            old(advice_allocator).taken + CHANNELWISE_ADVICE <= usize::MAX,
            old(meta).num_gates < usize::MAX,
        ensures
            config.first_column == (Column {
                kind: ColumnKind::Advice,
                index: old(meta).num_advice,
            }),
            config.num_columns == CHANNELWISE_ADVICE,
            final(meta).num_advice == old(meta).num_advice + CHANNELWISE_ADVICE,
            final(meta).num_gates == old(meta).num_gates + 1,
            final(meta).num_fixed == old(meta).num_fixed,
            final(meta).num_instance == old(meta).num_instance,
            final(meta).num_selectors == old(meta).num_selectors,
            final(meta).num_lookups == old(meta).num_lookups,
            final(advice_allocator).kind == ColumnKind::Advice,
            final(advice_allocator).taken == old(advice_allocator).taken + CHANNELWISE_ADVICE,
    {
        configure_channelwise(meta, advice_allocator)
    }

    /// Applies the per-channel affine transform: each output cell equals
    /// `input * scale + shift` of its channel, computed in the field.
    /// Rejected exactly when the scalars do not cover the channels.
    pub fn add_layer(&self, input: &Tensor3, params: &BatchnormChipParams) -> (res: Result<
        Tensor3,
        CircuitError,
    >)
        requires
            input.wf(),
            input.bounded(pow2(62) as int),
            pairs_bounded(pairs(params.scalars@), pow2(62) as int, pow2(124) as int),
        ensures
            res is Ok <==> params.scalars@.len() == input.depth,
            res is Err ==> res == Err::<Tensor3, CircuitError>(CircuitError::ShapeMismatch),
            res matches Ok(out) ==> {
                &&& out.wf()
                &&& out.depth == input.depth
                &&& out.height == input.height
                &&& out.width == input.width
                &&& out.vals() == batchnorm_map(
                    input.vals(),
                    pairs(params.scalars@),
                    input.height * input.width,
                )
            },
    {
        if params.scalars.len() != input.depth {
            return Err(CircuitError::ShapeMismatch);
        }
        let depth = input.depth;
        let ghost hw = input.height as int * input.width as int;
        let ghost svals = input.vals();
        let ghost sc = pairs(params.scalars@);
        let mut data: Vec<i128> = Vec::new();
        if depth == 0 {
            let out = Tensor3 {
                depth: input.depth,
                height: input.height,
                width: input.width,
                data,
            };
            proof {
                assert(input.depth * input.height * input.width == 0) by (nonlinear_arith)
                    requires
                        input.depth == 0,
                ;
                assert(out.vals() =~= batchnorm_map(svals, sc, hw));
            }
            return Ok(out);
        }
        proof {
            assert(input.height * input.width <= input.depth * input.height * input.width)
                by (nonlinear_arith)
                requires
                    input.depth >= 1,
                    input.height >= 0,
                    input.width >= 0,
            ;
            assert(input.depth * (input.height * input.width) == input.depth * input.height
                * input.width) by (nonlinear_arith);
            crate::tensor::lemma_vec_len_bound(&input.data);
        }
        let hw_exec = input.height * input.width;
        let mut c: usize = 0;
        while c < depth
            invariant
                c <= depth,
                depth == input.depth,
                input.wf(),
                input.bounded(pow2(62) as int),
                pairs_bounded(sc, pow2(62) as int, pow2(124) as int),
                sc == pairs(params.scalars@),
                sc.len() == depth,
                svals == input.vals(),
                hw == input.height as int * input.width as int,
                hw_exec as int == hw,
                depth as int * hw == input.data@.len(),
                input.data@.len() <= usize::MAX,
                data@.len() == c as int * hw,
                forall|i: int|
                    0 <= i < c as int * hw ==> #[trigger] data@[i] as int == svals[i] * sc[i
                        / hw].0 + sc[i / hw].1,
            decreases depth - c,
        {
            let (scale, shift) = params.scalars[c];
            proof {
                assert(sc[c as int].0 == scale as int && sc[c as int].1 == shift as int);
                assert((c as int + 1) * hw <= depth as int * hw) by (nonlinear_arith)
                    requires
                        c as int + 1 <= depth as int,
                        hw >= 0,
                ;
            }
            let mut j: usize = 0;
            while j < hw_exec
                invariant
                    j <= hw_exec,
                    c < depth,
                    depth == input.depth,
                    input.wf(),
                    input.bounded(pow2(62) as int),
                    pairs_bounded(sc, pow2(62) as int, pow2(124) as int),
                    sc == pairs(params.scalars@),
                    sc.len() == depth,
                    svals == input.vals(),
                    hw == input.height as int * input.width as int,
                    hw_exec as int == hw,
                    scale as int == sc[c as int].0,
                    shift as int == sc[c as int].1,
                    (c as int + 1) * hw <= depth as int * hw,
                    depth as int * hw == input.data@.len(),
                    input.data@.len() <= usize::MAX,
                    data@.len() == c as int * hw + j,
                    forall|i: int|
                        0 <= i < c as int * hw + j ==> #[trigger] data@[i] as int == svals[i]
                            * sc[i / hw].0 + sc[i / hw].1,
                decreases hw_exec - j,
            {
                proof {
                    assert(c as int * hw + j < (c as int + 1) * hw) by (nonlinear_arith)
                        requires
                            0 <= j < hw,
                            0 <= c,
                    ;
                    assert(depth as int * hw == input.data@.len());
                    assert(svals[c as int * hw + j] == input.data@[c as int * hw + j] as int);
                    lemma_fundamental_div_mod_converse_div(c as int * hw + j, hw, c as int, j as int);
                    let x = svals[c as int * hw + j];
                    assert(-pow2(62) <= x <= pow2(62));
                    assert(x * (scale as int) <= pow2(62) * pow2(62) && x * (scale as int)
                        >= -(pow2(62) * pow2(62))) by (nonlinear_arith)
                        requires
                            -pow2(62) <= x <= pow2(62),
                            -pow2(62) <= scale as int <= pow2(62),
                    ;
                    vstd::arithmetic::power2::lemma_pow2_adds(62, 62);
                    vstd::arithmetic::power2::lemma2_to64();
                    vstd::arithmetic::power2::lemma2_to64_rest();
                    vstd::arithmetic::power2::lemma_pow2_adds(64, 60);
                    assert(pow2(124) == pow2(64) * pow2(60));
                }
                let x = input.data[c * hw_exec + j];
                let cell = x * scale + shift;
                data.push(cell);
                j = j + 1;
            }
            proof {
                assert(c as int * hw + hw == (c as int + 1) * hw) by (nonlinear_arith);
            }
            c = c + 1;
        }
        let out = Tensor3 { depth: input.depth, height: input.height, width: input.width, data };
        proof {
            assert(out.vals() =~= batchnorm_map(svals, sc, hw));
        }
        Ok(out)
    }
}

/// Half the machine range: two values below it always add without
/// overflow.
pub const WIDE_LIMIT: i128 = 0x3fffffffffffffffffffffffffffffff;

/// Per-channel constants of the fixed distributed-add chip.
#[derive(Clone, Debug)]
pub struct DistributedAddFixedChipParams {
    pub scalars: Vec<i128>,
}

/// The distributed-multiply chip: scales every cell of a channel by that
/// channel's (witnessed) scalar.
pub struct DistributedMulChip {
    config: ChannelwiseConfig,
}

impl DistributedMulChip {
    /// The layout this chip was built over.
    pub closed spec fn spec_config(self) -> ChannelwiseConfig {
        self.config
    }

    /// Builds the chip over a configured layout.
    pub fn construct(config: ChannelwiseConfig) -> (chip: DistributedMulChip)
        ensures
            chip.spec_config() == config,
    {
        DistributedMulChip { config }
    }

    /// Lays the chip out over fresh columns.
    pub fn configure(
        meta: &mut ConstraintSystem,
        advice_allocator: &mut ColumnAllocator,
    ) -> (config: ChannelwiseConfig)
        requires
            old(advice_allocator).kind == ColumnKind::Advice,
            old(meta).num_advice + CHANNELWISE_ADVICE <= usize::MAX,
            old(advice_allocator).taken + CHANNELWISE_ADVICE <= usize::MAX,
            old(meta).num_gates < usize::MAX,
        ensures
            config.first_column == (Column {
                kind: ColumnKind::Advice,
                index: old(meta).num_advice,
            }),
            config.num_columns == CHANNELWISE_ADVICE,
            final(meta).num_advice == old(meta).num_advice + CHANNELWISE_ADVICE,
            final(meta).num_gates == old(meta).num_gates + 1,
            final(meta).num_fixed == old(meta).num_fixed,
            final(meta).num_instance == old(meta).num_instance,
            final(meta).num_selectors == old(meta).num_selectors,
            final(meta).num_lookups == old(meta).num_lookups,
            final(advice_allocator).kind == ColumnKind::Advice,
            final(advice_allocator).taken == old(advice_allocator).taken + CHANNELWISE_ADVICE,
    {
        configure_channelwise(meta, advice_allocator)
    }

    /// Multiplies every cell by its channel's scalar.  Rejected exactly
    /// when the scalars do not cover the channels.
    pub fn add_layer(&self, input: &Tensor3, scalars: &Vec<i128>) -> (res: Result<
        Tensor3,
        CircuitError,
    >)
        requires
            input.wf(),
            input.bounded(pow2(62) as int),
            seq_bounded(ints(scalars@), pow2(62) as int),
        ensures
            res is Ok <==> scalars@.len() == input.depth,
            res is Err ==> res == Err::<Tensor3, CircuitError>(CircuitError::ShapeMismatch),
            res matches Ok(out) ==> {
                &&& out.wf()
                &&& out.depth == input.depth
                &&& out.height == input.height
                &&& out.width == input.width
                &&& out.vals() == dist_mul_map(
                    input.vals(),
                    ints(scalars@),
                    input.height * input.width,
                )
            },
    {
        if scalars.len() != input.depth {
            return Err(CircuitError::ShapeMismatch);
        }
        let depth = input.depth;
        let ghost hw = input.height as int * input.width as int;
        let ghost svals = input.vals();
        let ghost sc = ints(scalars@);
        let mut data: Vec<i128> = Vec::new();
        if depth == 0 {
            let out = Tensor3 {
                depth: input.depth,
                height: input.height,
                width: input.width,
                data,
            };
            proof {
                assert(input.depth * input.height * input.width == 0) by (nonlinear_arith)
                    requires
                        input.depth == 0,
                ;
                assert(out.vals() =~= dist_mul_map(svals, sc, hw));
            }
            return Ok(out);
        }
        proof {
            assert(input.height * input.width <= input.depth * input.height * input.width)
                by (nonlinear_arith)
                requires
                    input.depth >= 1,
                    input.height >= 0,
                    input.width >= 0,
            ;
            assert(input.depth * (input.height * input.width) == input.depth * input.height
                * input.width) by (nonlinear_arith);
            crate::tensor::lemma_vec_len_bound(&input.data);
        }
        let hw_exec = input.height * input.width;
        let mut c: usize = 0;
        while c < depth
            invariant
                c <= depth,
                depth == input.depth,
                input.wf(),
                input.bounded(pow2(62) as int),
                seq_bounded(sc, pow2(62) as int),
                sc == ints(scalars@),
                sc.len() == depth,
                svals == input.vals(),
                hw == input.height as int * input.width as int,
                hw_exec as int == hw,
                depth as int * hw == input.data@.len(),
                input.data@.len() <= usize::MAX,
                data@.len() == c as int * hw,
                forall|i: int|
                    0 <= i < c as int * hw ==> #[trigger] data@[i] as int == svals[i] * sc[i / hw],
            decreases depth - c,
        {
            let scale = scalars[c];
            proof {
                assert(sc[c as int] == scale as int);
                assert((c as int + 1) * hw <= depth as int * hw) by (nonlinear_arith)
                    requires
                        c as int + 1 <= depth as int,
                        hw >= 0,
                ;
            }
            let mut j: usize = 0;
            while j < hw_exec
                invariant
                    j <= hw_exec,
                    c < depth,
                    depth == input.depth,
                    input.wf(),
                    input.bounded(pow2(62) as int),
                    seq_bounded(sc, pow2(62) as int),
                    sc == ints(scalars@),
                    sc.len() == depth,
                    svals == input.vals(),
                    hw == input.height as int * input.width as int,
                    hw_exec as int == hw,
                    scale as int == sc[c as int],
                    (c as int + 1) * hw <= depth as int * hw,
                    depth as int * hw == input.data@.len(),
                    input.data@.len() <= usize::MAX,
                    data@.len() == c as int * hw + j,
                    forall|i: int|
                        0 <= i < c as int * hw + j ==> #[trigger] data@[i] as int == svals[i]
                            * sc[i / hw],
                decreases hw_exec - j,
            {
                proof {
                    assert(c as int * hw + j < (c as int + 1) * hw) by (nonlinear_arith)
                        requires
                            0 <= j < hw,
                            0 <= c,
                    ;
                    assert(svals[c as int * hw + j] == input.data@[c as int * hw + j] as int);
                    lemma_fundamental_div_mod_converse_div(c as int * hw + j, hw, c as int, j as int);
                    let x = svals[c as int * hw + j];
                    assert(x * (scale as int) <= pow2(62) * pow2(62) && x * (scale as int)
                        >= -(pow2(62) * pow2(62))) by (nonlinear_arith)
                        requires
                            -pow2(62) <= x <= pow2(62),
                            -pow2(62) <= scale as int <= pow2(62),
                    ;
                    vstd::arithmetic::power2::lemma_pow2_adds(62, 62);
                    vstd::arithmetic::power2::lemma2_to64();
                    vstd::arithmetic::power2::lemma2_to64_rest();
                    vstd::arithmetic::power2::lemma_pow2_adds(64, 60);
                    assert(pow2(124) == pow2(64) * pow2(60));
                }
                let x = input.data[c * hw_exec + j];
                data.push(x * scale);
                j = j + 1;
            }
            proof {
                assert(c as int * hw + hw == (c as int + 1) * hw) by (nonlinear_arith);
            }
            c = c + 1;
        }
        let out = Tensor3 { depth: input.depth, height: input.height, width: input.width, data };
        proof {
            assert(out.vals() =~= dist_mul_map(svals, sc, hw));
        }
        Ok(out)
    }
}

/// Adds each channel's scalar to every cell of that channel: the shared
/// body of the two distributed-add chips.
fn add_channelwise(input: &Tensor3, scalars: &Vec<i128>) -> (res: Result<Tensor3, CircuitError>)
    requires
        input.wf(),
        input.bounded(WIDE_LIMIT as int),
        seq_bounded(ints(scalars@), WIDE_LIMIT as int),
    ensures
        res is Ok <==> scalars@.len() == input.depth,
        res is Err ==> res == Err::<Tensor3, CircuitError>(CircuitError::ShapeMismatch),
        res matches Ok(out) ==> {
            &&& out.wf()
            &&& out.depth == input.depth
            &&& out.height == input.height
            &&& out.width == input.width
            &&& out.vals() == dist_add_map(
                input.vals(),
                ints(scalars@),
                input.height * input.width,
            )
        },
{
    if scalars.len() != input.depth {
        return Err(CircuitError::ShapeMismatch);
    }
    let depth = input.depth;
    let ghost hw = input.height as int * input.width as int;
    let ghost svals = input.vals();
    let ghost sc = ints(scalars@);
    let mut data: Vec<i128> = Vec::new();
    if depth == 0 {
        let out = Tensor3 { depth: input.depth, height: input.height, width: input.width, data };
        proof {
            assert(input.depth * input.height * input.width == 0) by (nonlinear_arith)
                requires
                    input.depth == 0,
            ;
            assert(out.vals() =~= dist_add_map(svals, sc, hw));
        }
        return Ok(out);
    }
    proof {
        assert(input.height * input.width <= input.depth * input.height * input.width)
            by (nonlinear_arith)
            requires
                input.depth >= 1,
                input.height >= 0,
                input.width >= 0,
        ;
        assert(input.depth * (input.height * input.width) == input.depth * input.height
            * input.width) by (nonlinear_arith);
        crate::tensor::lemma_vec_len_bound(&input.data);
    }
    let hw_exec = input.height * input.width;
    let mut c: usize = 0;
    while c < depth
        invariant
            c <= depth,
            depth == input.depth,
            input.wf(),
            input.bounded(WIDE_LIMIT as int),
            seq_bounded(sc, WIDE_LIMIT as int),
            sc == ints(scalars@),
            sc.len() == depth,
            svals == input.vals(),
            hw == input.height as int * input.width as int,
            hw_exec as int == hw,
            depth as int * hw == input.data@.len(),
            input.data@.len() <= usize::MAX,
            data@.len() == c as int * hw,
            forall|i: int|
                0 <= i < c as int * hw ==> #[trigger] data@[i] as int == svals[i] + sc[i / hw],
        decreases depth - c,
    {
        let shift = scalars[c];
        proof {
            assert(sc[c as int] == shift as int);
            assert((c as int + 1) * hw <= depth as int * hw) by (nonlinear_arith)
                requires
                    c as int + 1 <= depth as int,
                    hw >= 0,
            ;
        }
        let mut j: usize = 0;
        while j < hw_exec
            invariant
                j <= hw_exec,
                c < depth,
                depth == input.depth,
                input.wf(),
                input.bounded(WIDE_LIMIT as int),
                seq_bounded(sc, WIDE_LIMIT as int),
                sc == ints(scalars@),
                sc.len() == depth,
                svals == input.vals(),
                hw == input.height as int * input.width as int,
                hw_exec as int == hw,
                shift as int == sc[c as int],
                (c as int + 1) * hw <= depth as int * hw,
                depth as int * hw == input.data@.len(),
                input.data@.len() <= usize::MAX,
                data@.len() == c as int * hw + j,
                forall|i: int|
                    0 <= i < c as int * hw + j ==> #[trigger] data@[i] as int == svals[i] + sc[i
                        / hw],
            decreases hw_exec - j,
        {
            proof {
                assert(c as int * hw + j < (c as int + 1) * hw) by (nonlinear_arith)
                    requires
                        0 <= j < hw,
                        0 <= c,
                ;
                assert(svals[c as int * hw + j] == input.data@[c as int * hw + j] as int);
                lemma_fundamental_div_mod_converse_div(c as int * hw + j, hw, c as int, j as int);
            }
            let x = input.data[c * hw_exec + j];
            data.push(x + shift);
            j = j + 1;
        }
        proof {
            assert(c as int * hw + hw == (c as int + 1) * hw) by (nonlinear_arith);
        }
        c = c + 1;
    }
    let out = Tensor3 { depth: input.depth, height: input.height, width: input.width, data };
    proof {
        assert(out.vals() =~= dist_add_map(svals, sc, hw));
    }
    Ok(out)
}

/// The distributed-add chip: adds each channel's witnessed scalar to
/// every cell of that channel.
pub struct DistributedAddChip {
    config: ChannelwiseConfig,
}

impl DistributedAddChip {
    /// The layout this chip was built over.
    pub closed spec fn spec_config(self) -> ChannelwiseConfig {
        self.config
    }

    /// Builds the chip over a configured layout.
    pub fn construct(config: ChannelwiseConfig) -> (chip: DistributedAddChip)
        ensures
            chip.spec_config() == config,
    {
        DistributedAddChip { config }
    }

    /// Lays the chip out over fresh columns.
    pub fn configure(
        meta: &mut ConstraintSystem,
        advice_allocator: &mut ColumnAllocator,
    ) -> (config: ChannelwiseConfig)
        requires
            old(advice_allocator).kind == ColumnKind::Advice,
            old(meta).num_advice + CHANNELWISE_ADVICE <= usize::MAX,
            old(advice_allocator).taken + CHANNELWISE_ADVICE <= usize::MAX,
            old(meta).num_gates < usize::MAX,
        ensures
            config.first_column == (Column {
                kind: ColumnKind::Advice,
                index: old(meta).num_advice,
            }),
            config.num_columns == CHANNELWISE_ADVICE,
            final(meta).num_advice == old(meta).num_advice + CHANNELWISE_ADVICE,
            final(meta).num_gates == old(meta).num_gates + 1,
            final(meta).num_fixed == old(meta).num_fixed,
            final(meta).num_instance == old(meta).num_instance,
            final(meta).num_selectors == old(meta).num_selectors,
            final(meta).num_lookups == old(meta).num_lookups,
            final(advice_allocator).kind == ColumnKind::Advice,
            final(advice_allocator).taken == old(advice_allocator).taken + CHANNELWISE_ADVICE,
    {
        configure_channelwise(meta, advice_allocator)
    }

    /// Adds each channel's scalar to every cell of that channel.
    pub fn add_layer(&self, input: &Tensor3, scalars: &Vec<i128>) -> (res: Result<
        Tensor3,
        CircuitError,
    >)
        requires
            input.wf(),
            input.bounded(WIDE_LIMIT as int),
            seq_bounded(ints(scalars@), WIDE_LIMIT as int),
        ensures
            res is Ok <==> scalars@.len() == input.depth,
            res is Err ==> res == Err::<Tensor3, CircuitError>(CircuitError::ShapeMismatch),
            res matches Ok(out) ==> {
                &&& out.wf()
                &&& out.depth == input.depth
                &&& out.height == input.height
                &&& out.width == input.width
                &&& out.vals() == dist_add_map(
                    input.vals(),
                    ints(scalars@),
                    input.height * input.width,
                )
            },
    {
        add_channelwise(input, scalars)
    }
}

/// The fixed distributed-add chip: adds each channel's configuration
/// constant to every cell of that channel.
pub struct DistributedAddFixedChip {
    config: ChannelwiseConfig,
}

impl DistributedAddFixedChip {
    /// The layout this chip was built over.
    pub closed spec fn spec_config(self) -> ChannelwiseConfig {
        self.config
    }

    /// Builds the chip over a configured layout.
    pub fn construct(config: ChannelwiseConfig) -> (chip: DistributedAddFixedChip)
        ensures
            chip.spec_config() == config,
    {
        DistributedAddFixedChip { config }
    }

    /// Lays the chip out over fresh columns.
    pub fn configure(
        meta: &mut ConstraintSystem,
        advice_allocator: &mut ColumnAllocator,
    ) -> (config: ChannelwiseConfig)
        requires
            old(advice_allocator).kind == ColumnKind::Advice,
            old(meta).num_advice + CHANNELWISE_ADVICE <= usize::MAX,
            old(advice_allocator).taken + CHANNELWISE_ADVICE <= usize::MAX,
            old(meta).num_gates < usize::MAX,
        ensures
            config.first_column == (Column {
                kind: ColumnKind::Advice,
                index: old(meta).num_advice,
            }),
            config.num_columns == CHANNELWISE_ADVICE,
            final(meta).num_advice == old(meta).num_advice + CHANNELWISE_ADVICE,
            final(meta).num_gates == old(meta).num_gates + 1,
            final(meta).num_fixed == old(meta).num_fixed,
            final(meta).num_instance == old(meta).num_instance,
            final(meta).num_selectors == old(meta).num_selectors,
            final(meta).num_lookups == old(meta).num_lookups,
            final(advice_allocator).kind == ColumnKind::Advice,
            final(advice_allocator).taken == old(advice_allocator).taken + CHANNELWISE_ADVICE,
    {
        configure_channelwise(meta, advice_allocator)
    }

    /// Adds each channel's fixed scalar to every cell of that channel.
    pub fn add_layer(&self, input: &Tensor3, params: &DistributedAddFixedChipParams) -> (res:
        Result<Tensor3, CircuitError>)
        requires
            input.wf(),
            input.bounded(WIDE_LIMIT as int),
            seq_bounded(ints(params.scalars@), WIDE_LIMIT as int),
        ensures
            res is Ok <==> params.scalars@.len() == input.depth,
            res is Err ==> res == Err::<Tensor3, CircuitError>(CircuitError::ShapeMismatch),
            res matches Ok(out) ==> {
                &&& out.wf()
                &&& out.depth == input.depth
                &&& out.height == input.height
                &&& out.width == input.width
                &&& out.vals() == dist_add_map(
                    input.vals(),
                    ints(params.scalars@),
                    input.height * input.width,
                )
            },
    {
        add_channelwise(input, &params.scalars)
    }
}

/// The residual-add chip: the elementwise sum of two same-shaped
/// tensors, realizing the skip connection.
pub struct ResidualAdd2DChip {
    config: ChannelwiseConfig,
}

impl ResidualAdd2DChip {
    /// The layout this chip was built over.
    pub closed spec fn spec_config(self) -> ChannelwiseConfig {
        self.config
    }

    /// Builds the chip over a configured layout.
    pub fn construct(config: ChannelwiseConfig) -> (chip: ResidualAdd2DChip)
        ensures
            chip.spec_config() == config,
    {
        ResidualAdd2DChip { config }
    }

    /// Lays the chip out over fresh columns.
    pub fn configure(
        meta: &mut ConstraintSystem,
        advice_allocator: &mut ColumnAllocator,
    ) -> (config: ChannelwiseConfig)
        requires
            old(advice_allocator).kind == ColumnKind::Advice,
            old(meta).num_advice + CHANNELWISE_ADVICE <= usize::MAX,
            old(advice_allocator).taken + CHANNELWISE_ADVICE <= usize::MAX,
            old(meta).num_gates < usize::MAX,
        ensures
            config.first_column == (Column {
                kind: ColumnKind::Advice,
                index: old(meta).num_advice,
            }),
            config.num_columns == CHANNELWISE_ADVICE,
            final(meta).num_advice == old(meta).num_advice + CHANNELWISE_ADVICE,
            final(meta).num_gates == old(meta).num_gates + 1,
            final(meta).num_fixed == old(meta).num_fixed,
            final(meta).num_instance == old(meta).num_instance,
            final(meta).num_selectors == old(meta).num_selectors,
            final(meta).num_lookups == old(meta).num_lookups,
            final(advice_allocator).kind == ColumnKind::Advice,
            final(advice_allocator).taken == old(advice_allocator).taken + CHANNELWISE_ADVICE,
    {
        configure_channelwise(meta, advice_allocator)
    }

    /// Sums two tensors cell by cell.  Rejected exactly when their
    /// shapes disagree.
    pub fn add_layer(&self, a: &Tensor3, b: &Tensor3) -> (res: Result<Tensor3, CircuitError>)
        requires
            a.wf(),
            b.wf(),
            a.bounded(WIDE_LIMIT as int),
            b.bounded(WIDE_LIMIT as int),
        ensures
            res is Ok <==> (a.depth == b.depth && a.height == b.height && a.width == b.width),
            res is Err ==> res == Err::<Tensor3, CircuitError>(CircuitError::ShapeMismatch),
            res matches Ok(out) ==> {
                &&& out.wf()
                &&& out.depth == a.depth
                &&& out.height == a.height
                &&& out.width == a.width
                &&& out.vals() == add_seq(a.vals(), b.vals())
            },
    {
        if a.depth != b.depth || a.height != b.height || a.width != b.width {
            return Err(CircuitError::ShapeMismatch);
        }
        let n = a.data.len();
        let mut data: Vec<i128> = Vec::new();
        let mut i: usize = 0;
        while i < n
            invariant
                i <= n,
                n == a.data@.len() == b.data@.len(),
                a.bounded(WIDE_LIMIT as int),
                b.bounded(WIDE_LIMIT as int),
                data@.len() == i,
                forall|j: int|
                    0 <= j < i ==> #[trigger] data@[j] as int == a.vals()[j] + b.vals()[j],
            decreases n - i,
        {
            proof {
                assert(a.vals()[i as int] == a.data@[i as int] as int);
                assert(b.vals()[i as int] == b.data@[i as int] as int);
            }
            data.push(a.data[i] + b.data[i]);
            i = i + 1;
        }
        let out = Tensor3 { depth: a.depth, height: a.height, width: a.width, data };
        proof {
            assert(out.vals() =~= add_seq(a.vals(), b.vals()));
        }
        Ok(out)
    }
}

/// Applies a fixed index map to a flat vector: entry `i` of the result
/// is entry `map[i]` of the input.  Rejected exactly when some index
/// lies outside the input.
pub fn gather(input: &Vec<i128>, map: &Vec<usize>) -> (res: Result<Vec<i128>, CircuitError>)
    ensures
        res is Ok <==> forall|i: int| 0 <= i < map@.len() ==> (#[trigger] map@[i]) < input@.len(),
        res is Err ==> res == Err::<Vec<i128>, CircuitError>(CircuitError::ShapeMismatch),
        res matches Ok(out) ==> {
            &&& out@.len() == map@.len()
            &&& forall|i: int|
                0 <= i < map@.len() ==> #[trigger] out@[i] == input@[map@[i] as int]
        },
{
    let n = map.len();
    let mut out: Vec<i128> = Vec::new();
    let mut i: usize = 0;
    while i < n
        invariant
            i <= n,
            n == map@.len(),
            out@.len() == i,
            forall|j: int| 0 <= j < i ==> (#[trigger] map@[j]) < input@.len(),
            forall|j: int| 0 <= j < i ==> #[trigger] out@[j] == input@[map@[j] as int],
        decreases n - i,
    {
        let idx = map[i];
        if idx >= input.len() {
            return Err(CircuitError::ShapeMismatch);
        }
        out.push(input[idx]);
        i = i + 1;
    }
    Ok(out)
}

/// The first `n` terms of one output's dot product: weights row `j`
/// against the input vector.
pub open spec fn dot_prefix(w: Matrix, j: int, x: Seq<int>, n: nat) -> int
    decreases n,
{
    if n == 0 {
        0
    } else {
        dot_prefix(w, j, x, (n - 1) as nat) + w.at(j, n - 1) * x[n - 1]
    }
}

/// The fully-connected projection: one dot product plus bias per output.
pub open spec fn fc_map(w: Matrix, b: Seq<int>, x: Seq<int>) -> Seq<int> {
    Seq::new(w.rows as nat, |j: int| dot_prefix(w, j, x, w.cols as nat) + b[j])
}

/// Static configuration of the fully-connected chip: the weight matrix's
/// shape and the column-folding factor bounding the chip's width.
#[derive(Clone, Copy, Debug)]
pub struct FcChipConfig {
    pub weights_height: usize,
    pub weights_width: usize,
    pub folding_factor: usize,
}

/// Constants of one fully-connected instantiation: the dense weight
/// matrix (rows × inputs) and one bias per output.
#[derive(Clone, Debug)]
pub struct FcChipParams {
    pub weights: Matrix,
    pub biases: Vec<i128>,
}

/// Layout of the fully-connected chip: its column run, its bias column,
/// and the projection shape it was configured for.
#[derive(Clone, Copy, Debug, PartialEq, Eq, Structural)]
pub struct FcConfig {
    pub first_column: Column,
    pub num_columns: usize,
    pub bias_column: Column,
    pub folding_factor: usize,
    pub weights_height: usize,
    pub weights_width: usize,
}

/// The fully-connected chip: a dense matrix-vector projection, folded
/// over several region rows to bound the number of distinct columns.
pub struct FcChip {
    config: FcConfig,
}

impl FcChip {
    /// The layout this chip was built over.
    pub closed spec fn spec_config(self) -> FcConfig {
        self.config
    }

    /// Builds the chip over a configured layout.
    pub fn construct(config: FcConfig) -> (chip: FcChip)
        ensures
            chip.spec_config() == config,
    {
        FcChip { config }
    }

    /// Lays the chip out: one advice column per folded input slot plus
    /// the accumulator and output, one fixed bias column, and the
    /// sum-of-products gate.  Folding trades columns for region depth;
    /// it never changes the arithmetic relation.
    pub fn configure(
        meta: &mut ConstraintSystem,
        config_params: FcChipConfig,
        advice_allocator: &mut ColumnAllocator,
        fixed_allocator: &mut ColumnAllocator,
    ) -> (config: FcConfig)
        requires
            old(advice_allocator).kind == ColumnKind::Advice,
            old(fixed_allocator).kind == ColumnKind::Fixed,
            config_params.folding_factor >= 1,
            config_params.weights_width <= MAX_TERMS,
            old(meta).num_advice + config_params.weights_width / config_params.folding_factor + 2
                <= usize::MAX,
            old(advice_allocator).taken + config_params.weights_width
                / config_params.folding_factor + 2 <= usize::MAX,
            old(meta).num_fixed < usize::MAX,
            old(fixed_allocator).taken < usize::MAX,
            old(meta).num_gates < usize::MAX,
        ensures
            config == (FcConfig {
                first_column: Column { kind: ColumnKind::Advice, index: old(meta).num_advice },
                num_columns: (config_params.weights_width / config_params.folding_factor
                    + 2) as usize,
                bias_column: Column { kind: ColumnKind::Fixed, index: old(meta).num_fixed },
                folding_factor: config_params.folding_factor,
                weights_height: config_params.weights_height,
                weights_width: config_params.weights_width,
            }),
            final(meta).num_advice == old(meta).num_advice + config_params.weights_width
                / config_params.folding_factor + 2,
            final(meta).num_fixed == old(meta).num_fixed + 1,
            final(meta).num_gates == old(meta).num_gates + 1,
            final(meta).num_instance == old(meta).num_instance,
            final(meta).num_selectors == old(meta).num_selectors,
            final(meta).num_lookups == old(meta).num_lookups,
            final(advice_allocator).kind == ColumnKind::Advice,
            final(advice_allocator).taken == old(advice_allocator).taken
                + config_params.weights_width / config_params.folding_factor + 2,
            final(fixed_allocator).kind == ColumnKind::Fixed,
            final(fixed_allocator).taken == old(fixed_allocator).taken + 1,
    {
        let slots = config_params.weights_width / config_params.folding_factor;
        let columns = advice_allocator.take(meta, slots + 2);
        let first_column = columns[0];
        let fixed = fixed_allocator.take(meta, 1);
        let bias_column = fixed[0];
        meta.create_gate();
        FcConfig {
            first_column,
            num_columns: slots + 2,
            bias_column,
            folding_factor: config_params.folding_factor,
            weights_height: config_params.weights_height,
            weights_width: config_params.weights_width,
        }
    }

    /// Projects the input vector through the weight matrix and adds the
    /// biases: output `j` is `Σ_i weights[j][i] * input[i] + bias[j]`.
    /// Rejected exactly when the shapes disagree.
    pub fn add_layer(&self, input: &Vec<i128>, params: &FcChipParams) -> (res: Result<
        Vec<i128>,
        CircuitError,
    >)
        requires
            params.weights.wf(),
            params.weights.bounded(MAX_MAG as int),
            seq_bounded(ints(input@), MAX_MAG as int),
            seq_bounded(ints(params.biases@), MAX_MAG as int * SCALING_FACTOR as int),
            params.weights.cols <= MAX_TERMS,
        ensures
            res is Ok <==> (input@.len() == params.weights.cols && params.biases@.len()
                == params.weights.rows),
            res is Err ==> res == Err::<Vec<i128>, CircuitError>(CircuitError::ShapeMismatch),
            res matches Ok(out) ==> {
                &&& out@.len() == params.weights.rows
                &&& ints(out@) == fc_map(params.weights, ints(params.biases@), ints(input@))
                &&& seq_bounded(ints(out@), accum_bound())
            },
    {
        let w = &params.weights;
        if input.len() != w.cols || params.biases.len() != w.rows {
            return Err(CircuitError::ShapeMismatch);
        }
        let ghost x = ints(input@);
        let ghost bs = ints(params.biases@);
        let rows = w.rows;
        let cols = w.cols;
        let mut out: Vec<i128> = Vec::new();
        let mut j: usize = 0;
        while j < rows
            invariant
                j <= rows,
                rows == w.rows,
                cols == w.cols,
                w.wf(),
                w.bounded(MAX_MAG as int),
                seq_bounded(x, MAX_MAG as int),
                seq_bounded(bs, MAX_MAG as int * SCALING_FACTOR as int),
                w.cols <= MAX_TERMS,
                x == ints(input@),
                bs == ints(params.biases@),
                input@.len() == cols,
                params.biases@.len() == rows,
                out@.len() == j,
                forall|r: int|
                    0 <= r < j ==> #[trigger] out@[r] as int == dot_prefix(*w, r, x, w.cols as nat)
                        + bs[r] && -accum_bound() <= out@[r] as int <= accum_bound(),
            decreases rows - j,
        {
            let mut acc: i128 = 0;
            let mut i: usize = 0;
            while i < cols
                invariant
                    i <= cols,
                    j < rows,
                    rows == w.rows,
                    cols == w.cols,
                    w.wf(),
                    w.bounded(MAX_MAG as int),
                    seq_bounded(x, MAX_MAG as int),
                    w.cols <= MAX_TERMS,
                    x == ints(input@),
                    input@.len() == cols,
                    acc as int == dot_prefix(*w, j as int, x, i as nat),
                    -(i as int * MAX_MAG * MAX_MAG) <= acc as int <= i as int * MAX_MAG * MAX_MAG,
                decreases cols - i,
            {
                let wv = w.get(j, i);
                let xv = input[i];
                proof {
                    assert(x[i as int] == input@[i as int] as int);
                    w.lemma_idx_in_range(j as int, i as int);
                    assert(-(MAX_MAG as int * MAX_MAG as int) <= wv as int * xv as int <= MAX_MAG
                        as int * MAX_MAG as int) by (nonlinear_arith)
                        requires
                            -(MAX_MAG as int) <= wv as int <= MAX_MAG as int,
                            -(MAX_MAG as int) <= xv as int <= MAX_MAG as int,
                    ;
                }
                acc = acc + wv * xv;
                i = i + 1;
            }
            let bias = params.biases[j];
            proof {
                assert(bs[j as int] == bias as int);
            }
            out.push(acc + bias);
            j = j + 1;
        }
        proof {
            assert(ints(out@) =~= fc_map(*w, bs, x));
        }
        Ok(out)
    }
}

/// The first `n` cells of one row of a channel's plane, summed.
pub open spec fn row_sum(s: Seq<int>, h: int, w: int, c: int, y: int, n: nat) -> int
    decreases n,
{
    if n == 0 {
        0
    } else {
        row_sum(s, h, w, c, y, (n - 1) as nat) + s[(c * h + y) * w + (n - 1)]
    }
}

/// The first `n` full rows of a channel's plane, summed.
pub open spec fn plane_sum(s: Seq<int>, h: int, w: int, c: int, n: nat) -> int
    decreases n,
{
    if n == 0 {
        0
    } else {
        plane_sum(s, h, w, c, (n - 1) as nat) + row_sum(s, h, w, c, n - 1, w as nat)
    }
}

/// The fixed-point factor that turns a plane's sum into its average:
/// the radix divided by the plane's cell count.
pub open spec fn pool_factor(h: int, w: int) -> int {
    SCALING_FACTOR as int / (h * w)
}

/// Whether every channel's scaled plane sum fits the renormalization
/// windows.
pub open spec fn avg_pool_ok(s: Seq<int>, depth: int, h: int, w: int) -> bool {
    forall|c: int|
        0 <= c < depth ==> norm_in_range(
            #[trigger] plane_sum(s, h, w, c, h as nat) * pool_factor(h, w),
        )
}

/// The pooled value of every channel: its scaled plane sum, renormalized.
pub open spec fn avg_pool_map(s: Seq<int>, depth: int, h: int, w: int) -> Seq<int> {
    Seq::new(depth as nat, |c: int| norm_spec(plane_sum(s, h, w, c, h as nat) * pool_factor(h, w)))
}

/// A row's partial sum over bounded cells grows at most linearly.
pub proof fn lemma_row_sum_bound(s: Seq<int>, depth: int, h: int, w: int, c: int, y: int, n: nat)
    requires
        s.len() == depth * h * w,
        seq_bounded(s, MAX_MAG as int),
        0 <= w,
        0 <= c < depth,
        0 <= y < h,
        n <= w,
    ensures
        -(n * MAX_MAG) <= row_sum(s, h, w, c, y, n) <= n * MAX_MAG,
    decreases n,
{
    if n > 0 {
        lemma_row_sum_bound(s, depth, h, w, c, y, (n - 1) as nat);
        assert(0 <= (c * h + y) * w + (n - 1) < depth * h * w) by (nonlinear_arith)
            requires
                0 <= c < depth,
                0 <= y < h,
                0 <= n - 1 < w,
        ;
    }
}

/// A plane's partial sum over bounded cells grows at most linearly in
/// the number of cells.
pub proof fn lemma_plane_sum_bound(s: Seq<int>, depth: int, h: int, w: int, c: int, n: nat)
    requires
        s.len() == depth * h * w,
        seq_bounded(s, MAX_MAG as int),
        0 <= w,
        0 <= c < depth,
        n <= h,
    ensures
        -(n * w * MAX_MAG) <= plane_sum(s, h, w, c, n) <= n * w * MAX_MAG,
    decreases n,
{
    if n > 0 {
        lemma_plane_sum_bound(s, depth, h, w, c, (n - 1) as nat);
        lemma_row_sum_bound(s, depth, h, w, c, n - 1, w as nat);
        assert((n - 1) * w * MAX_MAG + w * MAX_MAG == n * w * MAX_MAG) by (nonlinear_arith);
    }
}

/// The average-pool chip: reduces each channel's plane to one scalar by
/// a normalized sum — the plane total scaled by the fixed-point factor,
/// then renormalized through the shared table.
pub struct AvgPool2DChip {
    config: ChannelwiseConfig,
}

impl AvgPool2DChip {
    /// The layout this chip was built over.
    pub closed spec fn spec_config(self) -> ChannelwiseConfig {
        self.config
    }

    /// Builds the chip over a configured layout.
    pub fn construct(config: ChannelwiseConfig) -> (chip: AvgPool2DChip)
        ensures
            chip.spec_config() == config,
    {
        AvgPool2DChip { config }
    }

    /// Lays the chip out over fresh columns.
    pub fn configure(
        meta: &mut ConstraintSystem,
        advice_allocator: &mut ColumnAllocator,
    ) -> (config: ChannelwiseConfig)
        requires
            old(advice_allocator).kind == ColumnKind::Advice,
            old(meta).num_advice + CHANNELWISE_ADVICE <= usize::MAX,
            old(advice_allocator).taken + CHANNELWISE_ADVICE <= usize::MAX,
            old(meta).num_gates < usize::MAX,
        ensures
            config.first_column == (Column {
                kind: ColumnKind::Advice,
                index: old(meta).num_advice,
            }),
            config.num_columns == CHANNELWISE_ADVICE,
            final(meta).num_advice == old(meta).num_advice + CHANNELWISE_ADVICE,
            final(meta).num_gates == old(meta).num_gates + 1,
            final(meta).num_fixed == old(meta).num_fixed,
            final(meta).num_instance == old(meta).num_instance,
            final(meta).num_selectors == old(meta).num_selectors,
            final(meta).num_lookups == old(meta).num_lookups,
            final(advice_allocator).kind == ColumnKind::Advice,
            final(advice_allocator).taken == old(advice_allocator).taken + CHANNELWISE_ADVICE,
    {
        configure_channelwise(meta, advice_allocator)
    }

    /// Pools every channel's plane into one scalar.  The circuit is
    /// satisfiable exactly when each scaled plane sum fits its
    /// renormalization windows.
    pub fn add_layer(&self, input: &Tensor3) -> (res: Result<Vec<i128>, CircuitError>)
        requires
            input.wf(),
            input.bounded(MAX_MAG as int),
            1 <= input.height * input.width <= MAX_TERMS,
            SCALING_FACTOR as int % (input.height * input.width) == 0,
        ensures
            res is Ok <==> avg_pool_ok(
                input.vals(),
                input.depth as int,
                input.height as int,
                input.width as int,
            ),
            res is Err ==> res == Err::<Vec<i128>, CircuitError>(CircuitError::Unsatisfiable),
            res matches Ok(out) ==> {
                &&& out@.len() == input.depth
                &&& ints(out@) == avg_pool_map(
                    input.vals(),
                    input.depth as int,
                    input.height as int,
                    input.width as int,
                )
                &&& seq_bounded(ints(out@), MAX_MAG as int)
            },
    {
        proof {
            assert(input.height as int <= input.height as int * input.width as int)
                by (nonlinear_arith)
                requires
                    input.width >= 1,
                    input.height >= 0,
            ;
            assert(input.width as int <= input.height as int * input.width as int)
                by (nonlinear_arith)
                requires
                    input.height as int * input.width as int >= 1,
                    input.width >= 0,
                    input.height >= 1,
            ;
            if input.height == 0 {
                assert(input.height as int * input.width as int == 0) by (nonlinear_arith)
                    requires
                        input.height == 0,
                ;
            }
        }
        let hw = input.height * input.width;
        let factor: i128 = (SCALING_FACTOR / (hw as u64)) as i128;
        proof {
            assert(factor as int == pool_factor(input.height as int, input.width as int));
            assert(0 <= factor as int <= SCALING_FACTOR as int) by {
                vstd::arithmetic::div_mod::lemma_div_pos_is_pos(
                    SCALING_FACTOR as int,
                    input.height as int * input.width as int,
                );
                vstd::arithmetic::div_mod::lemma_div_is_ordered_by_denominator(
                    SCALING_FACTOR as int,
                    1,
                    input.height as int * input.width as int,
                );
            }
        }
        let depth = input.depth;
        let mut out: Vec<i128> = Vec::new();
        let mut c: usize = 0;
        while c < depth
            invariant
                c <= depth,
                depth == input.depth,
                input.wf(),
                input.bounded(MAX_MAG as int),
                1 <= input.height * input.width <= MAX_TERMS,
                factor as int == pool_factor(input.height as int, input.width as int),
                input.vals().len() == input.depth as int * input.height as int * input.width
                    as int,
                0 <= factor as int <= SCALING_FACTOR as int,
                out@.len() == c,
                forall|k: int|
                    0 <= k < c ==> norm_in_range(
                        #[trigger] plane_sum(
                            input.vals(),
                            input.height as int,
                            input.width as int,
                            k,
                            input.height as nat,
                        ) * pool_factor(input.height as int, input.width as int),
                    ),
                forall|k: int|
                    0 <= k < c ==> #[trigger] out@[k] as int == norm_spec(
                        plane_sum(
                            input.vals(),
                            input.height as int,
                            input.width as int,
                            k,
                            input.height as nat,
                        ) * pool_factor(input.height as int, input.width as int),
                    ) && -(MAX_MAG as int) <= out@[k] as int <= MAX_MAG as int,
            decreases depth - c,
        {
            let mut sum: i128 = 0;
            let mut y: usize = 0;
            while y < input.height
                invariant
                    y <= input.height,
                    c < depth,
                    depth == input.depth,
                    input.wf(),
                    input.bounded(MAX_MAG as int),
                    1 <= input.height * input.width <= MAX_TERMS,
                    input.vals().len() == input.depth as int * input.height as int * input.width
                        as int,
                    sum as int == plane_sum(
                        input.vals(),
                        input.height as int,
                        input.width as int,
                        c as int,
                        y as nat,
                    ),
                    -(y as int * input.width as int * MAX_MAG) <= sum as int <= y as int
                        * input.width as int * MAX_MAG,
                decreases input.height - y,
            {
                let mut x: usize = 0;
                let mut rsum: i128 = 0;
                while x < input.width
                    invariant
                        x <= input.width,
                        y < input.height,
                        c < depth,
                        depth == input.depth,
                        input.wf(),
                        input.bounded(MAX_MAG as int),
                        1 <= input.height * input.width <= MAX_TERMS,
                        input.vals().len() == input.depth as int * input.height as int
                            * input.width as int,
                        rsum as int == row_sum(
                            input.vals(),
                            input.height as int,
                            input.width as int,
                            c as int,
                            y as int,
                            x as nat,
                        ),
                        -(x as int * MAX_MAG) <= rsum as int <= x as int * MAX_MAG,
                    decreases input.width - x,
                {
                    let v = input.get(c, y, x);
                    proof {
                        input.lemma_idx_in_range(c as int, y as int, x as int);
                        assert(input.at(c as int, y as int, x as int) == input.vals()[(c as int
                            * input.height + y as int) * input.width + x as int]);
                    }
                    rsum = rsum + v;
                    x = x + 1;
                }
                proof {
                    lemma_row_sum_bound(
                        input.vals(),
                        input.depth as int,
                        input.height as int,
                        input.width as int,
                        c as int,
                        y as int,
                        input.width as nat,
                    );
                    assert(y as int * input.width as int * MAX_MAG + input.width as int * MAX_MAG
                        == (y as int + 1) * input.width as int * MAX_MAG) by (nonlinear_arith);
                    assert(0 <= y as int * input.width as int <= MAX_TERMS as int)
                        by (nonlinear_arith)
                        requires
                            0 <= y < input.height,
                            0 <= input.width,
                            input.height as int * input.width as int <= MAX_TERMS as int,
                    ;
                    assert(y as int * input.width as int * MAX_MAG <= MAX_TERMS as int * MAX_MAG
                        && -(MAX_TERMS as int * MAX_MAG) <= -(y as int * input.width as int
                        * MAX_MAG)) by (nonlinear_arith)
                        requires
                            0 <= y as int * input.width as int <= MAX_TERMS as int,
                            MAX_MAG > 0,
                    ;
                }
                sum = sum + rsum;
                y = y + 1;
            }
            proof {
                lemma_plane_sum_bound(
                    input.vals(),
                    input.depth as int,
                    input.height as int,
                    input.width as int,
                    c as int,
                    input.height as nat,
                );
                assert(input.height as int * input.width as int * MAX_MAG <= MAX_TERMS as int
                    * MAX_MAG) by (nonlinear_arith)
                    requires
                        0 <= input.height as int * input.width as int <= MAX_TERMS as int,
                        MAX_MAG > 0,
                ;
                assert(input.height as int * input.width as int * MAX_MAG == (input.height as int
                    * input.width as int) * MAX_MAG) by (nonlinear_arith);
                let s = sum as int;
                let f = factor as int;
                assert(-(MAX_TERMS as int * MAX_MAG * SCALING_FACTOR as int) <= s * f <= MAX_TERMS
                    as int * MAX_MAG * SCALING_FACTOR as int) by (nonlinear_arith)
                    requires
                        -(MAX_TERMS as int * MAX_MAG) <= s <= MAX_TERMS as int * MAX_MAG,
                        0 <= f <= SCALING_FACTOR as int,
                ;
            }
            let scaled = sum * factor;
            match normalize(scaled) {
                Ok(q) => {
                    out.push(q);
                },
                Err(e) => {
                    proof {
                        let h = input.height as int;
                        let w = input.width as int;
                        assert(h as nat == input.height as nat);
                        assert(plane_sum(input.vals(), h, w, c as int, h as nat) == plane_sum(
                            input.vals(),
                            h,
                            w,
                            c as int,
                            input.height as nat,
                        ));
                        assert(!norm_in_range(
                            plane_sum(input.vals(), h, w, c as int, h as nat) * pool_factor(h, w),
                        ));
                        assert(!avg_pool_ok(input.vals(), input.depth as int, h, w));
                    }
                    return Err(e);
                },
            }
            c = c + 1;
        }
        proof {
            assert(ints(out@) =~= avg_pool_map(
                input.vals(),
                input.depth as int,
                input.height as int,
                input.width as int,
            ));
        }
        Ok(out)
    }
}

} // verus!

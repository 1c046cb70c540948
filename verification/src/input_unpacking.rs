//! The input-unpacking chip.
//!
//! Each input plane arrives as one packed field element.  The chip
//! decomposes it into a fixed-width plane of binary-weighted values,
//! under a gate stating that every bit is boolean and that the weighted
//! sum of the bits reconstructs the packed value; on assignment each bit
//! is scaled by the global quantization factor.

use vstd::prelude::*;
use vstd::arithmetic::power2::{pow2, lemma2_to64_rest};
use vstd::arithmetic::div_mod::{lemma_basic_div, lemma_div_non_zero};
use vstd::arithmetic::mul::lemma_mul_inequality;
use vstd::bits::lemma_u64_shr_is_div;
use crate::bits::{bit, bits_of, weighted_sum, all_binary, ints_of, unpack_bits, pack_bits};
use crate::columns::{Column, ColumnKind, ConstraintSystem, ColumnAllocator, taken_columns};
use crate::error::CircuitError;
use crate::quantize::SCALING_FACTOR;
use crate::tensor::Tensor3;

verus! {

/// The unpacking gate: every output is boolean, and the binary-weighted
/// sum of the outputs reconstructs the packed input.
pub open spec fn unpacking_gate(input: u64, outputs: Seq<int>) -> bool {
    all_binary(outputs) && weighted_sum(outputs) == input as int
}

/// Decides whether a set of outputs satisfies the unpacking gate.
pub fn check_unpacking_witness(input: u64, outputs: &Vec<u64>) -> (ok: bool)
    requires
        outputs@.len() <= 64,
    ensures
        ok <==> unpacking_gate(input, ints_of(outputs@)),
{
    let mut i: usize = 0;
    while i < outputs.len()
        invariant
            i <= outputs@.len(),
            forall|j: int| #![trigger outputs@[j]] 0 <= j < i ==> (outputs@[j] == 0 || outputs@[j]
                == 1),
        decreases outputs@.len() - i,
    {
        if outputs[i] > 1 {
            proof {
                assert(ints_of(outputs@)[i as int] == outputs@[i as int] as int);
                assert(!all_binary(ints_of(outputs@)));
            }
            return false;
        }
        i = i + 1;
    }
    proof {
        assert forall|j: int| #![trigger ints_of(outputs@)[j]] 0 <= j < outputs@.len() implies (
        ints_of(outputs@)[j] == 0 || ints_of(outputs@)[j] == 1) by {
            assert(ints_of(outputs@)[j] == outputs@[j] as int);
        }
    }
    let v = pack_bits(outputs);
    v == input
}

/// Layout of the unpacking chip: one input column, one output column per
/// bit of a plane, and the selector of the unpacking gate.
#[derive(Clone, Debug)]
pub struct InputUnpackingConfig {
    pub input: Column,
    pub output: Vec<Column>,
    pub output_width: usize,
    pub output_height: usize,
    pub selector: usize,
}

impl InputUnpackingConfig {
    /// One output column per bit, and a plane small enough to pack into
    /// one machine word.
    pub open spec fn wf(self) -> bool {
        &&& self.output@.len() == self.output_width * self.output_height
        &&& 1 <= self.output_width * self.output_height <= 64
    }

    /// Bits of one plane.
    pub open spec fn plane_bits(self) -> int {
        self.output_width * self.output_height
    }
}

/// The input-unpacking chip.
pub struct InputUnpackingChip {
    config: InputUnpackingConfig,
}

impl InputUnpackingChip {
    /// The layout this chip was built over.
    pub closed spec fn spec_config(self) -> InputUnpackingConfig {
        self.config
    }

    /// Builds the chip over a configured layout.
    pub fn construct(config: InputUnpackingConfig) -> (chip: InputUnpackingChip)
        ensures
            chip.spec_config() == config,
    {
        InputUnpackingChip { config }
    }

    /// The layout this chip was built over.
    pub fn config(&self) -> (config: &InputUnpackingConfig)
        ensures
            *config == self.spec_config(),
    {
        &self.config
    }

    /// Lays the chip out: takes one fresh input column and one fresh
    /// output column per bit of a plane, a fresh selector, and registers
    /// the unpacking gate.
    pub fn configure(
        meta: &mut ConstraintSystem,
        config_params: (usize, usize),
        advice_allocator: &mut ColumnAllocator,
    ) -> (config: InputUnpackingConfig)
        requires
            old(advice_allocator).kind == ColumnKind::Advice,
            1 <= config_params.0 * config_params.1 <= 64,
            old(meta).num_advice + config_params.0 * config_params.1 + 1 <= usize::MAX,
            old(advice_allocator).taken + config_params.0 * config_params.1 + 1 <= usize::MAX,
            old(meta).num_selectors < usize::MAX,
            old(meta).num_gates < usize::MAX,
        ensures
            config.wf(),
            config.output_width == config_params.0,
            config.output_height == config_params.1,
            config.input == (Column { kind: ColumnKind::Advice, index: old(meta).num_advice }),
            config.output@ == taken_columns(
                ColumnKind::Advice,
                old(meta).num_advice + 1,
                config_params.0 * config_params.1,
            ),
            config.selector == old(meta).num_selectors,
            final(meta).num_advice == old(meta).num_advice + config_params.0 * config_params.1
                + 1,
            final(meta).num_selectors == old(meta).num_selectors + 1,
            final(meta).num_gates == old(meta).num_gates + 1,
            final(meta).num_fixed == old(meta).num_fixed,
            final(meta).num_instance == old(meta).num_instance,
            final(meta).num_lookups == old(meta).num_lookups,
            final(advice_allocator).kind == ColumnKind::Advice,
            final(advice_allocator).taken == old(advice_allocator).taken + config_params.0
                * config_params.1 + 1,
    {
        let (width, height) = config_params;
        let output_len = width * height;
        let advice = advice_allocator.take(meta, output_len + 1);
        let input = advice[0];
        let mut output: Vec<Column> = Vec::new();
        let mut i: usize = 1;
        while i < output_len + 1
            invariant
                1 <= i <= output_len + 1,
                advice@ == taken_columns(ColumnKind::Advice, old(meta).num_advice as int, (
                output_len + 1) as int),
                output@ =~= taken_columns(
                    ColumnKind::Advice,
                    old(meta).num_advice + 1,
                    i - 1,
                ),
            decreases output_len + 1 - i,
        {
            output.push(advice[i]);
            i = i + 1;
        }
        proof {
            assert(output@ =~= taken_columns(
                ColumnKind::Advice,
                old(meta).num_advice + 1,
                output_len as int,
            ));
        }
        let selector = meta.selector();
        meta.create_gate();
        InputUnpackingConfig { input, output, output_width: width, output_height: height, selector }
    }

    /// Unpacks every plane into its scaled bits.  The circuit is
    /// satisfiable exactly when every packed plane fits the plane's bit
    /// width; each produced cell is the corresponding bit of its plane,
    /// scaled by the quantization factor.
    pub fn add_layer(&self, input: &Vec<u64>) -> (res: Result<Tensor3, CircuitError>)
        requires
            self.spec_config().wf(),
            input@.len() * self.spec_config().plane_bits() <= usize::MAX,
        ensures
            res is Ok <==> forall|d: int|
                0 <= d < input@.len() ==> (#[trigger] input@[d] as int) < pow2(
                    self.spec_config().plane_bits() as nat,
                ),
            res is Err ==> res == Err::<Tensor3, CircuitError>(CircuitError::Unsatisfiable),
            res matches Ok(out) ==> {
                &&& out.wf()
                &&& out.depth == input@.len()
                &&& out.height == self.spec_config().output_width
                &&& out.width == self.spec_config().output_height
                &&& forall|d: int, k: int|
                    0 <= d < input@.len() && 0 <= k < self.spec_config().plane_bits()
                        ==> #[trigger] out.vals()[d * self.spec_config().plane_bits() + k] == bit(
                        input@[d],
                        k,
                    ) * SCALING_FACTOR
            },
    {
        let wh = self.config.output_width * self.config.output_height;
        let ghost wh_nat = wh as nat;

        // Satisfiability of the reconstruction constraint: every packed
        // plane must fit its bit width.
        let mut d: usize = 0;
        while d < input.len()
            invariant
                d <= input@.len(),
                wh == self.spec_config().plane_bits(),
                1 <= wh <= 64,
                forall|j: int| 0 <= j < d ==> (#[trigger] input@[j] as int) < pow2(wh as nat),
            decreases input@.len() - d,
        {
            let v = input[d];
            if wh < 64 {
                if (v >> (wh as u64)) != 0 {
                    proof {
                        lemma_u64_shr_is_div(v, wh as u64);
                        if (v as int) < pow2(wh as nat) {
                            lemma_basic_div(v as int, pow2(wh as nat) as int);
                        }
                    }
                    return Err(CircuitError::Unsatisfiable);
                }
                proof {
                    lemma_u64_shr_is_div(v, wh as u64);
                    vstd::arithmetic::power2::lemma_pow2_pos(wh as nat);
                    if (v as int) >= pow2(wh as nat) {
                        lemma_div_non_zero(v as int, pow2(wh as nat) as int);
                    }
                }
            } else {
                proof {
                    lemma2_to64_rest();
                }
            }
            d = d + 1;
        }

        // Assign the scaled bits, plane by plane.
        let mut data: Vec<i128> = Vec::new();
        let mut d: usize = 0;
        while d < input.len()
            invariant
                d <= input@.len(),
                wh == self.spec_config().plane_bits(),
                1 <= wh <= 64,
                input@.len() * wh <= usize::MAX,
                data@.len() == d * wh,
                forall|j: int, k: int|
                    0 <= j < d && 0 <= k < wh ==> #[trigger] data@[j * wh + k] as int == bit(
                        input@[j],
                        k,
                    ) * SCALING_FACTOR,
            decreases input@.len() - d,
        {
            proof {
                lemma_mul_inequality(d + 1, input@.len() as int, wh as int);
            }
            let plane_bits = unpack_bits(input[d], wh);
            let mut k: usize = 0;
            while k < wh
                invariant
                    k <= wh,
                    1 <= wh <= 64,
                    d < input@.len(),
                    wh == self.spec_config().plane_bits(),
                    input@.len() * wh <= usize::MAX,
                    plane_bits@.len() == wh,
                    ints_of(plane_bits@) =~= bits_of(input@[d as int], wh as nat),
                    data@.len() == d * wh + k,
                    (d + 1) * wh <= input@.len() * wh,
                    forall|j: int, k2: int|
                        0 <= j < d && 0 <= k2 < wh ==> #[trigger] data@[j * wh + k2] as int == bit(
                            input@[j],
                            k2,
                        ) * SCALING_FACTOR,
                    forall|k2: int|
                        0 <= k2 < k ==> #[trigger] data@[d as int * wh + k2] as int == bit(
                            input@[d as int],
                            k2,
                        ) * SCALING_FACTOR,
                decreases wh - k,
            {
                let b = plane_bits[k];
                proof {
                    assert(ints_of(plane_bits@)[k as int] == b as int);
                    crate::bits::lemma_bit_binary(input@[d as int], k as int);
                    assert(b as int == bit(input@[d as int], k as int));
                    assert(d * wh + k < (d + 1) * wh) by (nonlinear_arith)
                        requires
                            0 <= d,
                            0 <= k < wh,
                    ;
                }
                data.push((b as i128) * (SCALING_FACTOR as i128));
                proof {
                    assert forall|j: int, k2: int|
                        0 <= j < d && 0 <= k2 < wh implies #[trigger] data@[j * wh + k2] as int
                        == bit(input@[j], k2) * SCALING_FACTOR by {
                        assert(j * wh + k2 < d * wh) by (nonlinear_arith)
                            requires
                                0 <= j < d,
                                0 <= k2 < wh,
                        ;
                    }
                }
                k = k + 1;
            }
            proof {
                assert(d * wh + wh == (d + 1) * wh) by (nonlinear_arith);
            }
            d = d + 1;
        }
        let ghost data_view = data@;
        let out = Tensor3 {
            depth: input.len(),
            height: self.config.output_width,
            width: self.config.output_height,
            data,
        };
        proof {
            assert(out.data@ == data_view);
            assert(out.depth * out.height * out.width == input@.len() * wh) by (nonlinear_arith)
                requires
                    out.depth == input@.len(),
                    out.height as int * out.width as int == wh as int,
                    wh == self.spec_config().plane_bits(),
            ;
            assert forall|dd: int, kk: int|
                0 <= dd < input@.len() && 0 <= kk < wh implies #[trigger] out.vals()[dd * wh + kk]
                == bit(input@[dd], kk) * SCALING_FACTOR by {
                assert(dd * wh + kk < input@.len() * wh) by (nonlinear_arith)
                    requires
                        0 <= dd < input@.len(),
                        0 <= kk < wh,
                ;
                assert(out.vals()[dd * wh + kk] == out.data@[dd * wh + kk] as int);
                assert(out.data@[dd * wh + kk] as int == bit(input@[dd], kk) * SCALING_FACTOR);
            }
        }
        Ok(out)
    }
}

} // verus!

//! The 3D convolution chip.
//!
//! Every output cell is a constrained sum-of-products over the kernel
//! window, with explicit zero padding at the tensor's spatial boundary —
//! no wraparound.  A folding factor bounds how many distinct advice
//! columns the chip draws by accumulating partial sums across region
//! rows; it trades columns for depth and never changes the arithmetic
//! relation.

use vstd::prelude::*;
use crate::columns::{Column, ColumnKind, ConstraintSystem, ColumnAllocator};
use crate::error::CircuitError;
use crate::linear::MAX_TERMS;
use crate::quantize::MAX_MAG;
use crate::tensor::{Tensor3, Tensor4, grid_vals, flat_d, flat_y, flat_x, lemma_flat_decode, seq_bounded};

verus! {

/// A flat tensor extended by zero padding: cells outside the spatial
/// bounds read as zero.
pub open spec fn padded_at(s: Seq<int>, h: int, w: int, d: int, y: int, x: int) -> int {
    if 0 <= y < h && 0 <= x < w {
        s[(d * h + y) * w + x]
    } else {
        0
    }
}

/// The first `n` products of one kernel row against the padded input.
pub open spec fn win_row_sum(
    s: Seq<int>,
    h: int,
    w: int,
    ker: Tensor4,
    od: int,
    id: int,
    ky: int,
    y0: int,
    x0: int,
    n: nat,
) -> int
    decreases n,
{
    if n == 0 {
        0
    } else {
        win_row_sum(s, h, w, ker, od, id, ky, y0, x0, (n - 1) as nat) + padded_at(
            s,
            h,
            w,
            id,
            y0 + ky,
            x0 + (n - 1),
        ) * ker.at(od, ky, n - 1, id)
    }
}

/// The first `n` full kernel rows of one input channel's window.
pub open spec fn win_sum(
    s: Seq<int>,
    h: int,
    w: int,
    ker: Tensor4,
    od: int,
    id: int,
    y0: int,
    x0: int,
    n: nat,
) -> int
    decreases n,
{
    if n == 0 {
        0
    } else {
        win_sum(s, h, w, ker, od, id, y0, x0, (n - 1) as nat) + win_row_sum(
            s,
            h,
            w,
            ker,
            od,
            id,
            n - 1,
            y0,
            x0,
            ker.ker_width as nat,
        )
    }
}

/// The full windows of the first `n` input channels.
pub open spec fn conv_cell_sum(
    s: Seq<int>,
    h: int,
    w: int,
    ker: Tensor4,
    od: int,
    y0: int,
    x0: int,
    n: nat,
) -> int
    decreases n,
{
    if n == 0 {
        0
    } else {
        conv_cell_sum(s, h, w, ker, od, y0, x0, (n - 1) as nat) + win_sum(
            s,
            h,
            w,
            ker,
            od,
            n - 1,
            y0,
            x0,
            ker.ker_height as nat,
        )
    }
}

/// One output cell: the sum-of-products of the whole kernel window
/// anchored at the cell's position, shifted back by the padding.
pub open spec fn conv_cell(
    s: Seq<int>,
    depth: int,
    h: int,
    w: int,
    ker: Tensor4,
    pad_h: int,
    pad_w: int,
    od: int,
    y: int,
    x: int,
) -> int {
    conv_cell_sum(s, h, w, ker, od, y - pad_h, x - pad_w, depth as nat)
}

/// The height of the convolution's output under the given padding.
pub open spec fn conv_out_height(h: int, ker: Tensor4, pad_h: int) -> int {
    h + 2 * pad_h + 1 - ker.ker_height
}

/// The width of the convolution's output under the given padding.
pub open spec fn conv_out_width(w: int, ker: Tensor4, pad_w: int) -> int {
    w + 2 * pad_w + 1 - ker.ker_width
}

/// Every output cell of the convolution, row-major.
pub open spec fn conv_map(
    s: Seq<int>,
    depth: int,
    h: int,
    w: int,
    ker: Tensor4,
    pad_h: int,
    pad_w: int,
) -> Seq<int> {
    grid_vals(
        ker.out_depth as int,
        conv_out_height(h, ker, pad_h),
        conv_out_width(w, ker, pad_w),
        |od: int, y: int, x: int| conv_cell(s, depth, h, w, ker, pad_h, pad_w, od, y, x),
    )
}

/// A kernel row's partial sum over bounded factors grows at most
/// linearly.
pub proof fn lemma_win_row_sum_bound(
    s: Seq<int>,
    depth: int,
    h: int,
    w: int,
    ker: Tensor4,
    od: int,
    id: int,
    ky: int,
    y0: int,
    x0: int,
    n: nat,
)
    requires
        s.len() == depth * h * w,
        seq_bounded(s, MAX_MAG as int),
        ker.wf(),
        ker.bounded(MAX_MAG as int),
        0 <= od < ker.out_depth,
        0 <= id < ker.in_depth,
        id < depth,
        0 <= ky < ker.ker_height,
        n <= ker.ker_width,
    ensures
        -(n * (MAX_MAG * MAX_MAG)) <= win_row_sum(s, h, w, ker, od, id, ky, y0, x0, n) <= n
            * (MAX_MAG * MAX_MAG),
    decreases n,
{
    if n > 0 {
        lemma_win_row_sum_bound(s, depth, h, w, ker, od, id, ky, y0, x0, (n - 1) as nat);
        ker.lemma_idx_in_range(od, ky, n - 1, id);
        let v = padded_at(s, h, w, id, y0 + ky, x0 + (n - 1));
        let k = ker.at(od, ky, n - 1, id);
        if 0 <= y0 + ky < h && 0 <= x0 + (n - 1) < w {
            assert(0 <= (id * h + (y0 + ky)) * w + (x0 + (n - 1)) < depth * h * w)
                by (nonlinear_arith)
                requires
                    0 <= id < depth,
                    0 <= y0 + ky < h,
                    0 <= x0 + (n - 1) < w,
            ;
        }
        assert(-(MAX_MAG as int * MAX_MAG as int) <= v * k <= MAX_MAG as int * MAX_MAG as int)
            by (nonlinear_arith)
            requires
                -(MAX_MAG as int) <= v <= MAX_MAG as int,
                -(MAX_MAG as int) <= k <= MAX_MAG as int,
        ;
    }
}

/// A window's partial sum grows at most linearly in the number of rows.
pub proof fn lemma_win_sum_bound(
    s: Seq<int>,
    depth: int,
    h: int,
    w: int,
    ker: Tensor4,
    od: int,
    id: int,
    y0: int,
    x0: int,
    n: nat,
)
    requires
        s.len() == depth * h * w,
        seq_bounded(s, MAX_MAG as int),
        ker.wf(),
        ker.bounded(MAX_MAG as int),
        0 <= od < ker.out_depth,
        0 <= id < ker.in_depth,
        id < depth,
        n <= ker.ker_height,
    ensures
        -(n * ker.ker_width * (MAX_MAG * MAX_MAG)) <= win_sum(s, h, w, ker, od, id, y0, x0, n)
            <= n * ker.ker_width * (MAX_MAG * MAX_MAG),
    decreases n,
{
    if n > 0 {
        lemma_win_sum_bound(s, depth, h, w, ker, od, id, y0, x0, (n - 1) as nat);
        lemma_win_row_sum_bound(s, depth, h, w, ker, od, id, n - 1, y0, x0, ker.ker_width as nat);
        assert((n - 1) * ker.ker_width * (MAX_MAG * MAX_MAG) + ker.ker_width * (MAX_MAG
            * MAX_MAG) == n * ker.ker_width * (MAX_MAG * MAX_MAG)) by (nonlinear_arith);
    }
}

/// A cell's partial sum grows at most linearly in the number of walked
/// channels.
pub proof fn lemma_conv_cell_sum_bound(
    s: Seq<int>,
    depth: int,
    h: int,
    w: int,
    ker: Tensor4,
    od: int,
    y0: int,
    x0: int,
    n: nat,
)
    requires
        s.len() == depth * h * w,
        seq_bounded(s, MAX_MAG as int),
        ker.wf(),
        ker.bounded(MAX_MAG as int),
        0 <= od < ker.out_depth,
        n <= ker.in_depth,
        n <= depth,
    ensures
        -(n * ker.ker_height * ker.ker_width * (MAX_MAG * MAX_MAG)) <= conv_cell_sum(
            s,
            h,
            w,
            ker,
            od,
            y0,
            x0,
            n,
        ) <= n * ker.ker_height * ker.ker_width * (MAX_MAG * MAX_MAG),
    decreases n,
{
    if n > 0 {
        lemma_conv_cell_sum_bound(s, depth, h, w, ker, od, y0, x0, (n - 1) as nat);
        lemma_win_sum_bound(s, depth, h, w, ker, od, n - 1, y0, x0, ker.ker_height as nat);
        assert((n - 1) * ker.ker_height * ker.ker_width * (MAX_MAG * MAX_MAG) + ker.ker_height
            * ker.ker_width * (MAX_MAG * MAX_MAG) == n * ker.ker_height * ker.ker_width * (MAX_MAG
            * MAX_MAG)) by (nonlinear_arith);
    }
}

/// Constants of one convolution instantiation: the kernel tensor.
#[derive(Clone, Debug)]
pub struct Conv3DLayerParams {
    pub kernals: Tensor4,
}

/// Static configuration of the convolution chip: input and kernel
/// shapes, spatial padding, and the column-folding factor.
#[derive(Clone, Copy, Debug)]
pub struct Conv3DLayerConfigParams {
    pub input_height: usize,
    pub input_width: usize,
    pub input_depth: usize,
    pub ker_height: usize,
    pub ker_width: usize,
    pub padding_height: usize,
    pub padding_width: usize,
    pub folding_factor: usize,
}

/// Layout of the convolution chip: its column run and the static shape
/// it was configured for.
#[derive(Clone, Copy, Debug, PartialEq, Eq, Structural)]
pub struct Conv3DLayerConfig {
    pub first_column: Column,
    pub num_columns: usize,
    pub kernal_column: Column,
    pub ker_height: usize,
    pub ker_width: usize,
    pub padding_height: usize,
    pub padding_width: usize,
}

/// The 3D convolution chip.
pub struct Conv3DLayerChip {
    config: Conv3DLayerConfig,
}

impl Conv3DLayerChip {
    /// The layout this chip was built over.
    pub closed spec fn spec_config(self) -> Conv3DLayerConfig {
        self.config
    }

    /// Builds the chip over a configured layout.
    pub fn construct(config: Conv3DLayerConfig) -> (chip: Conv3DLayerChip)
        ensures
            chip.spec_config() == config,
    {
        Conv3DLayerChip { config }
    }

    /// Lays the chip out: the folded window slots plus accumulator and
    /// output as fresh advice columns, one fixed column for the kernel,
    /// and the sum-of-products gate.
    pub fn configure(
        meta: &mut ConstraintSystem,
        config_params: Conv3DLayerConfigParams,
        advice_allocator: &mut ColumnAllocator,
        fixed_allocator: &mut ColumnAllocator,
    ) -> (config: Conv3DLayerConfig)
        requires
            old(advice_allocator).kind == ColumnKind::Advice,
            old(fixed_allocator).kind == ColumnKind::Fixed,
            config_params.folding_factor >= 1,
            config_params.input_depth * config_params.ker_height <= MAX_TERMS,
            config_params.input_depth * config_params.ker_height * config_params.ker_width
                <= MAX_TERMS,
            old(meta).num_advice + config_params.input_depth * config_params.ker_height
                * config_params.ker_width / (config_params.folding_factor as int) + 2 <= usize::MAX,
            old(advice_allocator).taken + config_params.input_depth * config_params.ker_height
                * config_params.ker_width / (config_params.folding_factor as int) + 2 <= usize::MAX,
            old(meta).num_fixed < usize::MAX,
            old(fixed_allocator).taken < usize::MAX,
            old(meta).num_gates < usize::MAX,
        ensures
            config.first_column == (Column {
                kind: ColumnKind::Advice,
                index: old(meta).num_advice,
            }),
            config.num_columns == config_params.input_depth * config_params.ker_height
                * config_params.ker_width / (config_params.folding_factor as int) + 2,
            config.kernal_column == (Column {
                kind: ColumnKind::Fixed,
                index: old(meta).num_fixed,
            }),
            config.ker_height == config_params.ker_height,
            config.ker_width == config_params.ker_width,
            config.padding_height == config_params.padding_height,
            config.padding_width == config_params.padding_width,
            final(meta).num_advice == old(meta).num_advice + config_params.input_depth
                * config_params.ker_height * config_params.ker_width
                / (config_params.folding_factor as int) + 2,
            final(meta).num_fixed == old(meta).num_fixed + 1,
            final(meta).num_gates == old(meta).num_gates + 1,
            final(meta).num_instance == old(meta).num_instance,
            final(meta).num_selectors == old(meta).num_selectors,
            final(meta).num_lookups == old(meta).num_lookups,
            final(advice_allocator).kind == ColumnKind::Advice,
            final(advice_allocator).taken == old(advice_allocator).taken
                + config_params.input_depth * config_params.ker_height * config_params.ker_width
                / (config_params.folding_factor as int) + 2,
            final(fixed_allocator).kind == ColumnKind::Fixed,
            final(fixed_allocator).taken == old(fixed_allocator).taken + 1,
    {
        proof {
            assert(config_params.input_depth * config_params.ker_height * config_params.ker_width
                / (config_params.folding_factor as int) <= config_params.input_depth
                * config_params.ker_height * config_params.ker_width) by {
                vstd::arithmetic::div_mod::lemma_div_is_ordered_by_denominator(
                    config_params.input_depth as int * config_params.ker_height as int
                        * config_params.ker_width as int,
                    1,
                    config_params.folding_factor as int,
                );
                assert(config_params.input_depth as int * config_params.ker_height as int
                    * config_params.ker_width as int >= 0) by (nonlinear_arith);
            }
        }
        let window = config_params.input_depth * config_params.ker_height
            * config_params.ker_width;
        let slots = window / config_params.folding_factor;
        let columns = advice_allocator.take(meta, slots + 2);
        let first_column = columns[0];
        let fixed = fixed_allocator.take(meta, 1);
        let kernal_column = fixed[0];
        meta.create_gate();
        Conv3DLayerConfig {
            first_column,
            num_columns: slots + 2,
            kernal_column,
            ker_height: config_params.ker_height,
            ker_width: config_params.ker_width,
            padding_height: config_params.padding_height,
            padding_width: config_params.padding_width,
        }
    }

    /// Convolves the input with the kernel under zero padding: each
    /// output cell is the full window's sum-of-products.  Rejected
    /// exactly when the kernel's shape disagrees with the configured
    /// shape or with the input.
    pub fn add_layer(&self, input: &Tensor3, params: &Conv3DLayerParams) -> (res: Result<
        Tensor3,
        CircuitError,
    >)
        requires
            input.wf(),
            params.kernals.wf(),
            input.bounded(MAX_MAG as int),
            params.kernals.bounded(MAX_MAG as int),
            input.depth * params.kernals.ker_height * params.kernals.ker_width <= MAX_TERMS,
            input.height <= MAX_TERMS,
            input.width <= MAX_TERMS,
            self.spec_config().padding_height <= MAX_TERMS,
            self.spec_config().padding_width <= MAX_TERMS,
            params.kernals.out_depth * (input.height + 2 * self.spec_config().padding_height + 1)
                * (input.width + 2 * self.spec_config().padding_width + 1) <= usize::MAX,
        ensures
            res is Ok <==> {
                &&& params.kernals.in_depth == input.depth
                &&& params.kernals.ker_height == self.spec_config().ker_height
                &&& params.kernals.ker_width == self.spec_config().ker_width
                &&& params.kernals.ker_height <= input.height + 2
                    * self.spec_config().padding_height
                &&& params.kernals.ker_width <= input.width + 2
                    * self.spec_config().padding_width
            },
            res is Err ==> res == Err::<Tensor3, CircuitError>(CircuitError::ShapeMismatch),
            res matches Ok(out) ==> {
                &&& out.wf()
                &&& out.depth == params.kernals.out_depth
                &&& out.height == conv_out_height(
                    input.height as int,
                    params.kernals,
                    self.spec_config().padding_height as int,
                )
                &&& out.width == conv_out_width(
                    input.width as int,
                    params.kernals,
                    self.spec_config().padding_width as int,
                )
                &&& out.vals() == conv_map(
                    input.vals(),
                    input.depth as int,
                    input.height as int,
                    input.width as int,
                    params.kernals,
                    self.spec_config().padding_height as int,
                    self.spec_config().padding_width as int,
                )
                &&& out.bounded(MAX_TERMS as int * (MAX_MAG * MAX_MAG))
            },
    {
        let ker = &params.kernals;
        let ph = self.config.padding_height;
        let pw = self.config.padding_width;
        if ker.in_depth != input.depth || ker.ker_height != self.config.ker_height
            || ker.ker_width != self.config.ker_width {
            return Err(CircuitError::ShapeMismatch);
        }
        if ker.ker_height > input.height + 2 * ph || ker.ker_width > input.width + 2 * pw {
            return Err(CircuitError::ShapeMismatch);
        }
        let oh = input.height + 2 * ph + 1 - ker.ker_height;
        let ow = input.width + 2 * pw + 1 - ker.ker_width;
        proof {
            assert(ker.out_depth as int * oh as int * ow as int <= ker.out_depth as int
                * (input.height + 2 * ph + 1) * (input.width + 2 * pw + 1)) by (nonlinear_arith)
                requires
                    0 <= oh as int <= input.height + 2 * ph as int + 1,
                    0 <= ow as int <= input.width + 2 * pw as int + 1,
                    0 <= ker.out_depth,
            ;
            assert(0int * oh as int * ow as int == 0) by (nonlinear_arith);
        }
        let od_total = ker.out_depth;
        let depth = input.depth;
        let kh = ker.ker_height;
        let kw = ker.ker_width;
        let ghost terms_total = depth as int * kh as int * kw as int;
        let mut data: Vec<i128> = Vec::new();
        let mut od: usize = 0;
        while od < od_total
            invariant
                od <= od_total,
                oh <= 200000 && ow <= 200000 && kh <= 200000 && kw <= 200000,
                od_total == ker.out_depth,
                depth == input.depth == ker.in_depth,
                kh == ker.ker_height,
                kw == ker.ker_width,
                ph == self.spec_config().padding_height,
                pw == self.spec_config().padding_width,
                input.wf(),
                ker.wf(),
                ker == params.kernals,
                input.bounded(MAX_MAG as int),
                ker.bounded(MAX_MAG as int),
                depth as int * kh as int * kw as int <= MAX_TERMS,
                terms_total == depth as int * kh as int * kw as int,
                oh as int == conv_out_height(input.height as int, *ker, ph as int),
                ow as int == conv_out_width(input.width as int, *ker, pw as int),
                od_total as int * oh as int * ow as int <= usize::MAX,
                data@.len() == od as int * oh as int * ow as int,
                forall|i: int|
                    0 <= i < data@.len() ==> #[trigger] data@[i] as int == conv_cell(
                        input.vals(),
                        input.depth as int,
                        input.height as int,
                        input.width as int,
                        params.kernals,
                        ph as int,
                        pw as int,
                        flat_d(i, oh as int, ow as int),
                        flat_y(i, oh as int, ow as int),
                        flat_x(i, oh as int, ow as int),
                    ),
            decreases od_total - od,
        {
            proof {
                assert((od as int + 1) * oh as int * ow as int <= od_total as int * oh as int
                    * ow as int) by (nonlinear_arith)
                    requires
                        od as int + 1 <= od_total as int,
                        oh as int >= 0,
                        ow as int >= 0,
                ;
            }
            let mut y: usize = 0;
            while y < oh
                invariant
                    y <= oh,
                    oh <= 200000 && ow <= 200000 && kh <= 200000 && kw <= 200000,
                    od < od_total,
                    od_total == ker.out_depth,
                    depth == input.depth == ker.in_depth,
                    kh == ker.ker_height,
                    kw == ker.ker_width,
                    ph == self.spec_config().padding_height,
                    pw == self.spec_config().padding_width,
                    input.wf(),
                    ker.wf(),
                    ker == params.kernals,
                    input.bounded(MAX_MAG as int),
                    ker.bounded(MAX_MAG as int),
                    depth as int * kh as int * kw as int <= MAX_TERMS,
                    terms_total == depth as int * kh as int * kw as int,
                    oh as int == conv_out_height(input.height as int, *ker, ph as int),
                    ow as int == conv_out_width(input.width as int, *ker, pw as int),
                    od_total as int * oh as int * ow as int <= usize::MAX,
                    (od as int + 1) * oh as int * ow as int <= od_total as int * oh as int * ow
                        as int,
                    data@.len() == (od as int * oh as int + y as int) * ow as int,
                    forall|i: int|
                        0 <= i < data@.len() ==> #[trigger] data@[i] as int == conv_cell(
                            input.vals(),
                            input.depth as int,
                            input.height as int,
                            input.width as int,
                            params.kernals,
                            ph as int,
                            pw as int,
                            flat_d(i, oh as int, ow as int),
                            flat_y(i, oh as int, ow as int),
                            flat_x(i, oh as int, ow as int),
                        ),
                decreases oh - y,
            {
                proof {
                    assert((od as int * oh as int + y as int + 1) * ow as int <= (od as int + 1)
                        * oh as int * ow as int) by (nonlinear_arith)
                        requires
                            0 <= y as int && y as int + 1 <= oh as int,
                            0 <= od as int,
                            ow as int >= 0,
                    ;
                }
                let mut x: usize = 0;
                while x < ow
                    invariant
                        x <= ow,
                        oh <= 200000 && ow <= 200000 && kh <= 200000 && kw <= 200000,
                        y < oh,
                        od < od_total,
                        od_total == ker.out_depth,
                        depth == input.depth == ker.in_depth,
                        kh == ker.ker_height,
                        kw == ker.ker_width,
                        ph == self.spec_config().padding_height,
                        pw == self.spec_config().padding_width,
                        input.wf(),
                        ker.wf(),
                        ker == params.kernals,
                        input.bounded(MAX_MAG as int),
                        ker.bounded(MAX_MAG as int),
                        depth as int * kh as int * kw as int <= MAX_TERMS,
                        terms_total == depth as int * kh as int * kw as int,
                        oh as int == conv_out_height(input.height as int, *ker, ph as int),
                        ow as int == conv_out_width(input.width as int, *ker, pw as int),
                        od_total as int * oh as int * ow as int <= usize::MAX,
                        (od as int + 1) * oh as int * ow as int <= od_total as int * oh as int
                            * ow as int,
                        (od as int * oh as int + y as int + 1) * ow as int <= (od as int + 1) * oh
                            as int * ow as int,
                        data@.len() == (od as int * oh as int + y as int) * ow as int + x as int,
                        forall|i: int|
                            0 <= i < data@.len() ==> #[trigger] data@[i] as int == conv_cell(
                                input.vals(),
                                input.depth as int,
                                input.height as int,
                                input.width as int,
                                params.kernals,
                                ph as int,
                                pw as int,
                                flat_d(i, oh as int, ow as int),
                                flat_y(i, oh as int, ow as int),
                                flat_x(i, oh as int, ow as int),
                            ),
                    decreases ow - x,
                {
                    let ghost y0 = y as int - ph as int;
                    let ghost x0 = x as int - pw as int;
                    let mut acc: i128 = 0;
                        let mut id: usize = 0;
                    while id < depth
                        invariant
                            id <= depth,
                            oh <= 200000 && ow <= 200000 && kh <= 200000 && kw <= 200000,
                            x < ow,
                            y < oh,
                            od < od_total,
                            od_total == ker.out_depth,
                            depth == input.depth == ker.in_depth,
                            kh == ker.ker_height,
                            kw == ker.ker_width,
                            input.wf(),
                            ker.wf(),
                            ker == params.kernals,
                            input.bounded(MAX_MAG as int),
                            ker.bounded(MAX_MAG as int),
                            depth as int * kh as int * kw as int <= MAX_TERMS,
                            y0 == y as int - ph as int,
                            x0 == x as int - pw as int,
                            acc as int == conv_cell_sum(input.vals(), input.height as int, input.width as int, *ker, od as int, y0, x0, id as nat),
                            -(id as int * kh as int * kw as int * (MAX_MAG * MAX_MAG)) <= acc
                                as int <= id as int * kh as int * kw as int * (MAX_MAG * MAX_MAG),
                        decreases depth - id,
                    {
                        proof {
                            lemma_conv_cell_sum_bound(
                                input.vals(),
                                input.depth as int,
                                input.height as int,
                                input.width as int,
                                *ker,
                                od as int,
                                y0,
                                x0,
                                id as nat,
                            );
                        }
                        let mut ky: usize = 0;
                        let mut wacc: i128 = 0;
                        while ky < kh
                            invariant
                                ky <= kh,
                                oh <= 200000 && ow <= 200000 && kh <= 200000 && kw <= 200000,
                                id < depth,
                                x < ow,
                                y < oh,
                                od < od_total,
                                od_total == ker.out_depth,
                                depth == input.depth == ker.in_depth,
                                kh == ker.ker_height,
                                kw == ker.ker_width,
                                input.wf(),
                                ker.wf(),
                                ker == params.kernals,
                                input.bounded(MAX_MAG as int),
                                ker.bounded(MAX_MAG as int),
                                y0 == y as int - ph as int,
                                x0 == x as int - pw as int,
                                wacc as int == win_sum(input.vals(), input.height as int, input.width as int, *ker, od as int, id as int, y0, x0, ky as nat),
                                -(ky as int * kw as int * (MAX_MAG * MAX_MAG)) <= wacc as int <= ky
                                    as int * kw as int * (MAX_MAG * MAX_MAG),
                            decreases kh - ky,
                        {
                            proof {
                                lemma_win_sum_bound(
                                    input.vals(),
                                    input.depth as int,
                                    input.height as int,
                                    input.width as int,
                                    *ker,
                                    od as int,
                                    id as int,
                                    y0,
                                    x0,
                                    ky as nat,
                                );
                            }
                            let mut kx: usize = 0;
                            let mut racc: i128 = 0;
                            while kx < kw
                                invariant
                                    kx <= kw,
                                    oh <= 200000 && ow <= 200000 && kh <= 200000 && kw <= 200000,
                                    ky < kh,
                                    id < depth,
                                    x < ow,
                                    y < oh,
                                    od < od_total,
                                    od_total == ker.out_depth,
                                    depth == input.depth == ker.in_depth,
                                    kh == ker.ker_height,
                                    kw == ker.ker_width,
                                    input.wf(),
                                    ker.wf(),
                                    ker == params.kernals,
                                    input.bounded(MAX_MAG as int),
                                    ker.bounded(MAX_MAG as int),
                                    y0 == y as int - ph as int,
                                    x0 == x as int - pw as int,
                                    racc as int == win_row_sum(
                                        input.vals(),
                                        input.height as int,
                                        input.width as int,
                                        *ker,
                                        od as int,
                                        id as int,
                                        ky as int,
                                        y0,
                                        x0,
                                        kx as nat,
                                    ),
                                    -(kx as int * (MAX_MAG * MAX_MAG)) <= racc as int <= kx as int
                                        * (MAX_MAG * MAX_MAG),
                                decreases kw - kx,
                            {
                                let iy = y + ky;
                                let ix = x + kx;
                                let v: i128 = if iy >= ph && iy - ph < input.height && ix >= pw
                                    && ix - pw < input.width {
                                    input.get(id, iy - ph, ix - pw)
                                } else {
                                    0
                                };
                                let k = ker.get(od, ky, kx, id);
                                proof {
                                    assert(v as int == padded_at(input.vals(), input.height as int, input.width as int, id as int, y0 + ky, x0 + kx));
                                    ker.lemma_idx_in_range(od as int, ky as int, kx as int, id as int);
                                    if 0 <= y0 + ky < input.height && 0 <= x0 + kx < input.width {
                                        input.lemma_idx_in_range(id as int, y0 + ky, x0 + kx);
                                    }
                                    assert({
                                        &&& -(MAX_MAG as int * MAX_MAG as int) <= v as int * k
                                            as int <= MAX_MAG as int * MAX_MAG as int
                                        &&& MAX_MAG as int * MAX_MAG as int
                                            == 1208925819614629174706176int
                                        &&& -((kx as int + 1) * (MAX_MAG * MAX_MAG)) <= racc
                                            as int + v as int * k as int <= (kx as int + 1)
                                            * (MAX_MAG * MAX_MAG)
                                        &&& (kx as int + 1) * (MAX_MAG * MAX_MAG) <= 200001
                                            * 1208925819614629174706176int
                                    }) by (nonlinear_arith)
                                        requires
                                            MAX_MAG == 1099511627776i128,
                                            -(MAX_MAG as int) <= v as int <= MAX_MAG as int,
                                            -(MAX_MAG as int) <= k as int <= MAX_MAG as int,
                                            -(kx as int * (MAX_MAG * MAX_MAG)) <= racc as int
                                                <= kx as int * (MAX_MAG * MAX_MAG),
                                            0 <= kx as int <= 200000,
                                    ;
                                }
                                racc = racc + v * k;
                                kx = kx + 1;
                            }
                            proof {
                                assert({
                                    &&& -((ky as int + 1) * kw as int * (MAX_MAG * MAX_MAG))
                                        <= wacc as int + racc as int <= (ky as int + 1) * kw
                                        as int * (MAX_MAG * MAX_MAG)
                                    &&& (ky as int + 1) * kw as int * (MAX_MAG * MAX_MAG)
                                        <= 200001 * 200000 * 1208925819614629174706176int
                                }) by (nonlinear_arith)
                                    requires
                                        MAX_MAG == 1099511627776i128,
                                        -(ky as int * kw as int * (MAX_MAG * MAX_MAG)) <= wacc
                                            as int <= ky as int * kw as int * (MAX_MAG * MAX_MAG),
                                        -(kw as int * (MAX_MAG * MAX_MAG)) <= racc as int <= kw
                                            as int * (MAX_MAG * MAX_MAG),
                                        0 <= ky as int <= 200000,
                                        0 <= kw as int <= 200000,
                                ;
                            }
                            wacc = wacc + racc;
                            ky = ky + 1;
                        }
                        proof {
                            assert({
                                &&& -((id as int + 1) * kh as int * kw as int * (MAX_MAG
                                    * MAX_MAG)) <= acc as int + wacc as int <= (id as int + 1)
                                    * kh as int * kw as int * (MAX_MAG * MAX_MAG)
                                &&& (id as int + 1) * kh as int * kw as int * (MAX_MAG * MAX_MAG)
                                    <= 65536 * 1208925819614629174706176int
                            }) by (nonlinear_arith)
                                requires
                                    MAX_MAG == 1099511627776i128,
                                    -(id as int * kh as int * kw as int * (MAX_MAG * MAX_MAG))
                                        <= acc as int <= id as int * kh as int * kw as int
                                        * (MAX_MAG * MAX_MAG),
                                    -(kh as int * kw as int * (MAX_MAG * MAX_MAG)) <= wacc as int
                                        <= kh as int * kw as int * (MAX_MAG * MAX_MAG),
                                    0 <= id as int && id as int + 1 <= depth as int,
                                    kh as int >= 0,
                                    kw as int >= 0,
                                    depth as int * kh as int * kw as int <= 65536,
                            ;
                        }
                        acc = acc + wacc;
                        id = id + 1;
                    }
                    proof {
                        lemma_flat_decode(od as int, y as int, x as int, oh as int, ow as int);
                        assert(acc as int == conv_cell(
                            input.vals(),
                            input.depth as int,
                            input.height as int,
                            input.width as int,
                            params.kernals,
                            ph as int,
                            pw as int,
                            od as int,
                            y as int,
                            x as int,
                        ));
                    }
                    data.push(acc);
                    x = x + 1;
                }
                proof {
                    assert((od as int * oh as int + y as int) * ow as int + ow as int == (od
                        as int * oh as int + y as int + 1) * ow as int) by (nonlinear_arith);
                }
                y = y + 1;
            }
            proof {
                assert((od as int * oh as int + oh as int) * ow as int == (od as int + 1) * oh
                    as int * ow as int) by (nonlinear_arith);
            }
            od = od + 1;
        }
        let ghost data_view = data@;
        let out = Tensor3 { depth: od_total, height: oh, width: ow, data };
        proof {
            assert(out.data@ == data_view);
            assert(od_total as int * oh as int * ow as int == out.depth * out.height * out.width)
                by (nonlinear_arith)
                requires
                    out.depth == od_total as int,
                    out.height == oh as int,
                    out.width == ow as int,
            ;
            assert(out.vals() =~= conv_map(
                input.vals(),
                input.depth as int,
                input.height as int,
                input.width as int,
                params.kernals,
                ph as int,
                pw as int,
            ));
            assert forall|i: int| 0 <= i < out.vals().len() implies -(MAX_TERMS as int * (MAX_MAG
                * MAX_MAG)) <= #[trigger] out.vals()[i] <= MAX_TERMS as int * (MAX_MAG * MAX_MAG)
                by {
                assert(out.vals()[i] == out.data@[i] as int);
                crate::tensor::lemma_flat_in_range(
                    i,
                    od_total as int,
                    oh as int,
                    ow as int,
                );
                lemma_conv_cell_sum_bound(
                    input.vals(),
                    input.depth as int,
                    input.height as int,
                    input.width as int,
                    *ker,
                    flat_d(i, oh as int, ow as int),
                    flat_y(i, oh as int, ow as int) - ph as int,
                    flat_x(i, oh as int, ow as int) - pw as int,
                    input.depth as nat,
                );
                assert(depth as int * kh as int * kw as int * (MAX_MAG * MAX_MAG) <= MAX_TERMS
                    as int * (MAX_MAG * MAX_MAG)) by (nonlinear_arith)
                    requires
                        0 <= depth as int * kh as int * kw as int <= MAX_TERMS as int,
                        MAX_MAG > 0,
                ;
            }
        }
        Ok(out)
    }
}

} // verus!

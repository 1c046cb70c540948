//! Elementwise non-linear chips: renormalization, rectification, and the
//! table-driven sigmoid.
//!
//! Each chip takes a wide pre-activation value per cell and produces one
//! quantized value, proving the relation through the shared range-check
//! table: the value's Euclidean decomposition over the fixed-point radix
//! is witnessed window by window, and a witness that fits no window
//! leaves the circuit unsatisfiable.

use vstd::prelude::*;
use crate::columns::{Column, ColumnKind, ConstraintSystem, ColumnAllocator};
use crate::error::CircuitError;
use crate::lookup::DecompTable;
use crate::quantize::{normalize, relu_normalize, relu, norm_spec, norm_in_range, MAX_MAG};
use crate::tensor::{Tensor3, ints, seq_bounded};

verus! {

/// Decomposition windows a quantized value is split into: two for the
/// remainder below the radix, four for the quotient's magnitude.
pub const DECOMP_WINDOWS: usize = 6;

/// Advice columns of one elementwise chip: the input, one column per
/// decomposition window, and the output.
pub const ELTWISE_ADVICE: usize = 8;

/// Renormalization applied across a whole sequence of cells.
pub open spec fn norm_map(s: Seq<int>) -> Seq<int> {
    s.map_values(|x: int| norm_spec(x))
}

/// Renormalization fused with the rectifier, across a whole sequence.
pub open spec fn relu_norm_map(s: Seq<int>) -> Seq<int> {
    s.map_values(|x: int| if x < 0 { 0int } else { norm_spec(x) })
}

/// The plain rectifier across a whole sequence.
pub open spec fn relu_map(s: Seq<int>) -> Seq<int> {
    s.map_values(|x: int| if x < 0 { 0int } else { x })
}

/// Whether every cell's quotient fits the decomposition windows.
pub open spec fn all_norm_in_range(s: Seq<int>) -> bool {
    forall|i: int| 0 <= i < s.len() ==> norm_in_range(#[trigger] s[i])
}

/// Whether every cell's magnitude fits the decomposition windows.
pub open spec fn all_in_mag(s: Seq<int>) -> bool {
    forall|i: int| 0 <= i < s.len() ==> -(MAX_MAG as int) <= #[trigger] s[i] <= MAX_MAG as int
}

/// What the renormalization chip leaves in its output cells, or `None`
/// when some witness fits no decomposition.
pub open spec fn normalize_stage(s: Seq<int>) -> Option<Seq<int>> {
    if all_norm_in_range(s) {
        Some(norm_map(s))
    } else {
        None
    }
}

/// What the fused rectifier-renormalization chip leaves in its output
/// cells, or `None` when some witness fits no decomposition.
pub open spec fn relu_norm_stage(s: Seq<int>) -> Option<Seq<int>> {
    if all_norm_in_range(s) {
        Some(relu_norm_map(s))
    } else {
        None
    }
}

/// What the plain rectifier chip leaves in its output cells, or `None`
/// when some witness fits no decomposition.
pub open spec fn relu_stage(s: Seq<int>) -> Option<Seq<int>> {
    if all_in_mag(s) {
        Some(relu_map(s))
    } else {
        None
    }
}

/// Layout of one elementwise chip: its run of advice columns and the
/// shared range table it looks windows up in.
#[derive(Clone, Copy, Debug, PartialEq, Eq, Structural)]
pub struct EltwiseConfig {
    pub first_column: Column,
    pub num_columns: usize,
    pub range_table: DecompTable,
}

/// Lays out one elementwise chip: fresh advice columns for input,
/// decomposition windows and output, one gate, and one lookup argument
/// into the shared table.
fn configure_eltwise(
    meta: &mut ConstraintSystem,
    advice_allocator: &mut ColumnAllocator,
    range_table: DecompTable,
) -> (config: EltwiseConfig)
    requires
        old(advice_allocator).kind == ColumnKind::Advice,
        old(meta).num_advice + ELTWISE_ADVICE <= usize::MAX,
        old(advice_allocator).taken + ELTWISE_ADVICE <= usize::MAX,
        old(meta).num_gates < usize::MAX,
        old(meta).num_lookups < usize::MAX,
    ensures
        config.first_column == (Column { kind: ColumnKind::Advice, index: old(meta).num_advice }),
        config.num_columns == ELTWISE_ADVICE,
        config.range_table == range_table,
        final(meta).num_advice == old(meta).num_advice + ELTWISE_ADVICE,
        final(meta).num_gates == old(meta).num_gates + 1,
        final(meta).num_lookups == old(meta).num_lookups + 1,
        final(meta).num_fixed == old(meta).num_fixed,
        final(meta).num_instance == old(meta).num_instance,
        final(meta).num_selectors == old(meta).num_selectors,
        final(advice_allocator).kind == ColumnKind::Advice,
        final(advice_allocator).taken == old(advice_allocator).taken + ELTWISE_ADVICE,
{
    let columns = advice_allocator.take(meta, ELTWISE_ADVICE);
    let first_column = columns[0];
    meta.create_gate();
    meta.lookup();
    EltwiseConfig { first_column, num_columns: ELTWISE_ADVICE, range_table }
}

/// The renormalization chip over a full tensor.
pub struct Normalize2dChip {
    config: EltwiseConfig,
}

impl Normalize2dChip {
    /// The layout this chip was built over.
    pub closed spec fn spec_config(self) -> EltwiseConfig {
        self.config
    }

    /// Builds the chip over a configured layout.
    pub fn construct(config: EltwiseConfig) -> (chip: Normalize2dChip)
        ensures
            chip.spec_config() == config,
    {
        Normalize2dChip { config }
    }

    /// Lays the chip out over fresh columns.
    pub fn configure(
        meta: &mut ConstraintSystem,
        advice_allocator: &mut ColumnAllocator,
        range_table: DecompTable,
    ) -> (config: EltwiseConfig)
        requires
            old(advice_allocator).kind == ColumnKind::Advice,
            old(meta).num_advice + ELTWISE_ADVICE <= usize::MAX,
            old(advice_allocator).taken + ELTWISE_ADVICE <= usize::MAX,
            old(meta).num_gates < usize::MAX,
            old(meta).num_lookups < usize::MAX,
        ensures
            config.first_column == (Column {
                kind: ColumnKind::Advice,
                index: old(meta).num_advice,
            }),
            config.num_columns == ELTWISE_ADVICE,
            config.range_table == range_table,
            final(meta).num_advice == old(meta).num_advice + ELTWISE_ADVICE,
            final(meta).num_gates == old(meta).num_gates + 1,
            final(meta).num_lookups == old(meta).num_lookups + 1,
            final(meta).num_fixed == old(meta).num_fixed,
            final(meta).num_instance == old(meta).num_instance,
            final(meta).num_selectors == old(meta).num_selectors,
            final(advice_allocator).kind == ColumnKind::Advice,
            final(advice_allocator).taken == old(advice_allocator).taken + ELTWISE_ADVICE,
    {
        configure_eltwise(meta, advice_allocator, range_table)
    }

    /// Renormalizes every cell of a tensor, shape preserved; the circuit
    /// is satisfiable exactly when every quotient fits its windows.
    pub fn add_layer(&self, input: &Tensor3) -> (res: Result<Tensor3, CircuitError>)
        requires
            input.wf(),
        ensures
            normalize_stage(input.vals()) matches Some(v) ==> res matches Ok(out) && {
                &&& out.wf()
                &&& out.depth == input.depth
                &&& out.height == input.height
                &&& out.width == input.width
                &&& out.vals() == v
                &&& out.bounded(MAX_MAG as int)
            },
            normalize_stage(input.vals()) is None ==> res == Err::<Tensor3, CircuitError>(
                CircuitError::Unsatisfiable,
            ),
    {
        let n = input.data.len();
        let mut data: Vec<i128> = Vec::new();
        let mut i: usize = 0;
        while i < n
            invariant
                i <= n,
                n == input.data@.len(),
                data@.len() == i,
                forall|j: int| 0 <= j < i ==> norm_in_range(#[trigger] input.vals()[j]),
                forall|j: int|
                    0 <= j < i ==> #[trigger] data@[j] as int == norm_spec(input.vals()[j])
                        && -(MAX_MAG as int) <= data@[j] as int <= MAX_MAG as int,
            decreases n - i,
        {
            proof {
                assert(input.vals()[i as int] == input.data@[i as int] as int);
            }
            match normalize(input.data[i]) {
                Ok(q) => {
                    data.push(q);
                },
                Err(e) => {
                    proof {
                        assert(!norm_in_range(input.vals()[i as int]));
                    }
                    return Err(e);
                },
            }
            i = i + 1;
        }
        let out = Tensor3 { depth: input.depth, height: input.height, width: input.width, data };
        proof {
            assert(out.vals() =~= norm_map(input.vals()));
        }
        Ok(out)
    }
}

/// The fused rectifier-renormalization chip over a full tensor.
pub struct ReluNorm2DChip {
    config: EltwiseConfig,
}

impl ReluNorm2DChip {
    /// The layout this chip was built over.
    pub closed spec fn spec_config(self) -> EltwiseConfig {
        self.config
    }

    /// Builds the chip over a configured layout.
    pub fn construct(config: EltwiseConfig) -> (chip: ReluNorm2DChip)
        ensures
            chip.spec_config() == config,
    {
        ReluNorm2DChip { config }
    }

    /// Lays the chip out over fresh columns.
    pub fn configure(
        meta: &mut ConstraintSystem,
        advice_allocator: &mut ColumnAllocator,
        range_table: DecompTable,
    ) -> (config: EltwiseConfig)
        requires
            old(advice_allocator).kind == ColumnKind::Advice,
            old(meta).num_advice + ELTWISE_ADVICE <= usize::MAX,
            old(advice_allocator).taken + ELTWISE_ADVICE <= usize::MAX,
            old(meta).num_gates < usize::MAX,
            old(meta).num_lookups < usize::MAX,
        ensures
            config.first_column == (Column {
                kind: ColumnKind::Advice,
                index: old(meta).num_advice,
            }),
            config.num_columns == ELTWISE_ADVICE,
            config.range_table == range_table,
            final(meta).num_advice == old(meta).num_advice + ELTWISE_ADVICE,
            final(meta).num_gates == old(meta).num_gates + 1,
            final(meta).num_lookups == old(meta).num_lookups + 1,
            final(meta).num_fixed == old(meta).num_fixed,
            final(meta).num_instance == old(meta).num_instance,
            final(meta).num_selectors == old(meta).num_selectors,
            final(advice_allocator).kind == ColumnKind::Advice,
            final(advice_allocator).taken == old(advice_allocator).taken + ELTWISE_ADVICE,
    {
        configure_eltwise(meta, advice_allocator, range_table)
    }

    /// Renormalizes every cell, clamping negative pre-activations to
    /// zero through the sign window of the decomposition.
    pub fn add_layer(&self, input: &Tensor3) -> (res: Result<Tensor3, CircuitError>)
        requires
            input.wf(),
        ensures
            relu_norm_stage(input.vals()) matches Some(v) ==> res matches Ok(out) && {
                &&& out.wf()
                &&& out.depth == input.depth
                &&& out.height == input.height
                &&& out.width == input.width
                &&& out.vals() == v
                &&& out.bounded(MAX_MAG as int)
            },
            relu_norm_stage(input.vals()) is None ==> res == Err::<Tensor3, CircuitError>(
                CircuitError::Unsatisfiable,
            ),
    {
        let n = input.data.len();
        let mut data: Vec<i128> = Vec::new();
        let mut i: usize = 0;
        while i < n
            invariant
                i <= n,
                n == input.data@.len(),
                data@.len() == i,
                forall|j: int| 0 <= j < i ==> norm_in_range(#[trigger] input.vals()[j]),
                forall|j: int|
                    0 <= j < i ==> #[trigger] data@[j] as int == (if input.vals()[j] < 0 {
                        0int
                    } else {
                        norm_spec(input.vals()[j])
                    }) && -(MAX_MAG as int) <= data@[j] as int <= MAX_MAG as int,
            decreases n - i,
        {
            proof {
                assert(input.vals()[i as int] == input.data@[i as int] as int);
            }
            match relu_normalize(input.data[i]) {
                Ok(q) => {
                    data.push(q);
                },
                Err(e) => {
                    proof {
                        assert(!norm_in_range(input.vals()[i as int]));
                    }
                    return Err(e);
                },
            }
            i = i + 1;
        }
        let out = Tensor3 { depth: input.depth, height: input.height, width: input.width, data };
        proof {
            assert(out.vals() =~= relu_norm_map(input.vals()));
        }
        Ok(out)
    }
}

/// The plain rectifier chip over a full tensor.
pub struct Relu2DChip {
    config: EltwiseConfig,
}

impl Relu2DChip {
    /// The layout this chip was built over.
    pub closed spec fn spec_config(self) -> EltwiseConfig {
        self.config
    }

    /// Builds the chip over a configured layout.
    pub fn construct(config: EltwiseConfig) -> (chip: Relu2DChip)
        ensures
            chip.spec_config() == config,
    {
        Relu2DChip { config }
    }

    /// Lays the chip out over fresh columns.
    pub fn configure(
        meta: &mut ConstraintSystem,
        advice_allocator: &mut ColumnAllocator,
        range_table: DecompTable,
    ) -> (config: EltwiseConfig)
        requires
            old(advice_allocator).kind == ColumnKind::Advice,
            old(meta).num_advice + ELTWISE_ADVICE <= usize::MAX,
            old(advice_allocator).taken + ELTWISE_ADVICE <= usize::MAX,
            old(meta).num_gates < usize::MAX,
            old(meta).num_lookups < usize::MAX,
        ensures
            config.first_column == (Column {
                kind: ColumnKind::Advice,
                index: old(meta).num_advice,
            }),
            config.num_columns == ELTWISE_ADVICE,
            config.range_table == range_table,
            final(meta).num_advice == old(meta).num_advice + ELTWISE_ADVICE,
            final(meta).num_gates == old(meta).num_gates + 1,
            final(meta).num_lookups == old(meta).num_lookups + 1,
            final(meta).num_fixed == old(meta).num_fixed,
            final(meta).num_instance == old(meta).num_instance,
            final(meta).num_selectors == old(meta).num_selectors,
            final(advice_allocator).kind == ColumnKind::Advice,
            final(advice_allocator).taken == old(advice_allocator).taken + ELTWISE_ADVICE,
    {
        configure_eltwise(meta, advice_allocator, range_table)
    }

    /// Clamps every negative cell to zero, shape preserved; satisfiable
    /// exactly when every magnitude fits the sign decomposition.
    pub fn add_layer(&self, input: &Tensor3) -> (res: Result<Tensor3, CircuitError>)
        requires
            input.wf(),
        ensures
            relu_stage(input.vals()) matches Some(v) ==> res matches Ok(out) && {
                &&& out.wf()
                &&& out.depth == input.depth
                &&& out.height == input.height
                &&& out.width == input.width
                &&& out.vals() == v
                &&& out.bounded(MAX_MAG as int)
            },
            relu_stage(input.vals()) is None ==> res == Err::<Tensor3, CircuitError>(
                CircuitError::Unsatisfiable,
            ),
    {
        let n = input.data.len();
        let mut data: Vec<i128> = Vec::new();
        let mut i: usize = 0;
        while i < n
            invariant
                i <= n,
                n == input.data@.len(),
                data@.len() == i,
                forall|j: int|
                    0 <= j < i ==> -(MAX_MAG as int) <= #[trigger] input.vals()[j] <= MAX_MAG
                        as int,
                forall|j: int|
                    0 <= j < i ==> #[trigger] data@[j] as int == (if input.vals()[j] < 0 {
                        0int
                    } else {
                        input.vals()[j]
                    }) && -(MAX_MAG as int) <= data@[j] as int <= MAX_MAG as int,
            decreases n - i,
        {
            proof {
                assert(input.vals()[i as int] == input.data@[i as int] as int);
            }
            match relu(input.data[i]) {
                Ok(q) => {
                    data.push(q);
                },
                Err(e) => {
                    return Err(e);
                },
            }
            i = i + 1;
        }
        let out = Tensor3 { depth: input.depth, height: input.height, width: input.width, data };
        proof {
            assert(out.vals() =~= relu_map(input.vals()));
        }
        Ok(out)
    }
}

/// Renormalizes every element of a flat vector: the element-at-a-time
/// form of the renormalization chip, used where a block works on plain
/// vectors rather than planes.
pub fn normalize_vec(input: &Vec<i128>) -> (res: Result<Vec<i128>, CircuitError>)
    ensures
        normalize_stage(ints(input@)) matches Some(v) ==> res matches Ok(out) && {
            &&& out@.len() == input@.len()
            &&& ints(out@) == v
            &&& seq_bounded(ints(out@), MAX_MAG as int)
        },
        normalize_stage(ints(input@)) is None ==> res == Err::<Vec<i128>, CircuitError>(
            CircuitError::Unsatisfiable,
        ),
{
    let n = input.len();
    let mut out: Vec<i128> = Vec::new();
    let mut i: usize = 0;
    while i < n
        invariant
            i <= n,
            n == input@.len(),
            out@.len() == i,
            forall|j: int| 0 <= j < i ==> norm_in_range(#[trigger] ints(input@)[j]),
            forall|j: int|
                0 <= j < i ==> #[trigger] out@[j] as int == norm_spec(ints(input@)[j]) && -(
                MAX_MAG as int) <= out@[j] as int <= MAX_MAG as int,
        decreases n - i,
    {
        proof {
            assert(ints(input@)[i as int] == input@[i as int] as int);
        }
        match normalize(input[i]) {
            Ok(q) => {
                out.push(q);
            },
            Err(e) => {
                proof {
                    assert(!norm_in_range(ints(input@)[i as int]));
                }
                return Err(e);
            },
        }
        i = i + 1;
    }
    proof {
        assert(ints(out@) =~= norm_map(ints(input@)));
    }
    Ok(out)
}

/// Renormalizes every element of a flat vector, clamping negatives to
/// zero: the element-at-a-time form of the fused
/// rectifier-renormalization chip.
pub fn relu_normalize_vec(input: &Vec<i128>) -> (res: Result<Vec<i128>, CircuitError>)
    ensures
        relu_norm_stage(ints(input@)) matches Some(v) ==> res matches Ok(out) && {
            &&& out@.len() == input@.len()
            &&& ints(out@) == v
            &&& seq_bounded(ints(out@), MAX_MAG as int)
        },
        relu_norm_stage(ints(input@)) is None ==> res == Err::<Vec<i128>, CircuitError>(
            CircuitError::Unsatisfiable,
        ),
{
    let n = input.len();
    let mut out: Vec<i128> = Vec::new();
    let mut i: usize = 0;
    while i < n
        invariant
            i <= n,
            n == input@.len(),
            out@.len() == i,
            forall|j: int| 0 <= j < i ==> norm_in_range(#[trigger] ints(input@)[j]),
            forall|j: int|
                0 <= j < i ==> #[trigger] out@[j] as int == (if ints(input@)[j] < 0 {
                    0int
                } else {
                    norm_spec(ints(input@)[j])
                }) && -(MAX_MAG as int) <= out@[j] as int <= MAX_MAG as int,
        decreases n - i,
    {
        proof {
            assert(ints(input@)[i as int] == input@[i as int] as int);
        }
        match relu_normalize(input[i]) {
            Ok(q) => {
                out.push(q);
            },
            Err(e) => {
                proof {
                    assert(!norm_in_range(ints(input@)[i as int]));
                }
                return Err(e);
            },
        }
        i = i + 1;
    }
    proof {
        assert(ints(out@) =~= relu_norm_map(ints(input@)));
    }
    Ok(out)
}

/// What the sigmoid chip leaves in its output cells: the table entry its
/// bounded quantized input indexes, or `None` when some input lies
/// outside the table's domain.
pub open spec fn sigmoid_stage(table: Seq<int>, lo: int, s: Seq<int>) -> Option<Seq<int>> {
    if forall|i: int| 0 <= i < s.len() ==> lo <= #[trigger] s[i] < lo + table.len() {
        Some(Seq::new(s.len(), |i: int| table[s[i] - lo]))
    } else {
        None
    }
}

/// The table-driven sigmoid chip: an approximation of the non-linear
/// activation, exact on the bounded domain the table enumerates.
pub struct SigmoidChip {
    /// One quantized output value per representable input.
    pub table: Vec<i128>,
    /// The smallest input the table covers.
    pub lo: i128,
    /// The chip's first advice column.
    pub first_column: Column,
    /// How many advice columns the chip drew.
    pub num_columns: usize,
}

impl SigmoidChip {
    /// The domain's width and the output magnitudes both stay within the
    /// decomposition bound.
    pub open spec fn wf(self) -> bool {
        &&& seq_bounded(ints(self.table@), MAX_MAG as int)
        &&& -(MAX_MAG as int) <= self.lo <= MAX_MAG as int
        &&& self.table@.len() <= MAX_MAG as int
    }

    /// Lays the chip out: fresh advice columns, the activation table, and
    /// one lookup argument over it.
    pub fn configure(
        meta: &mut ConstraintSystem,
        advice_allocator: &mut ColumnAllocator,
        table: Vec<i128>,
        lo: i128,
    ) -> (chip: SigmoidChip)
        requires
            old(advice_allocator).kind == ColumnKind::Advice,
            old(meta).num_advice + ELTWISE_ADVICE <= usize::MAX,
            old(advice_allocator).taken + ELTWISE_ADVICE <= usize::MAX,
            old(meta).num_gates < usize::MAX,
            old(meta).num_lookups < usize::MAX,
            seq_bounded(ints(table@), MAX_MAG as int),
            -(MAX_MAG as int) <= lo <= MAX_MAG as int,
            table@.len() <= MAX_MAG as int,
        ensures
            chip.wf(),
            chip.table@ == table@,
            chip.lo == lo,
            chip.first_column == (Column {
                kind: ColumnKind::Advice,
                index: old(meta).num_advice,
            }),
            chip.num_columns == ELTWISE_ADVICE,
            final(meta).num_advice == old(meta).num_advice + ELTWISE_ADVICE,
            final(meta).num_gates == old(meta).num_gates + 1,
            final(meta).num_lookups == old(meta).num_lookups + 1,
            final(meta).num_fixed == old(meta).num_fixed,
            final(meta).num_instance == old(meta).num_instance,
            final(meta).num_selectors == old(meta).num_selectors,
            final(advice_allocator).kind == ColumnKind::Advice,
            final(advice_allocator).taken == old(advice_allocator).taken + ELTWISE_ADVICE,
    {
        let columns = advice_allocator.take(meta, ELTWISE_ADVICE);
        let first_column = columns[0];
        meta.create_gate();
        meta.lookup();
        SigmoidChip { table, lo, first_column, num_columns: ELTWISE_ADVICE }
    }

    /// Applies the activation to every element of a vector: each output
    /// is the table entry its input indexes; an input outside the
    /// table's domain leaves the circuit unsatisfiable.
    pub fn add_layer(&self, input: &Vec<i128>) -> (res: Result<Vec<i128>, CircuitError>)
        requires
            self.wf(),
            seq_bounded(ints(input@), MAX_MAG as int * 2),
        ensures
            sigmoid_stage(ints(self.table@), self.lo as int, ints(input@)) matches Some(v)
                ==> res matches Ok(out) && {
                &&& ints(out@) == v
                &&& out@.len() == input@.len()
                &&& seq_bounded(ints(out@), MAX_MAG as int)
            },
            sigmoid_stage(ints(self.table@), self.lo as int, ints(input@)) is None ==> res
                == Err::<Vec<i128>, CircuitError>(CircuitError::Unsatisfiable),
    {
        let n = input.len();
        let table_len = self.table.len();
        let mut out: Vec<i128> = Vec::new();
        let mut i: usize = 0;
        while i < n
            invariant
                i <= n,
                n == input@.len(),
                self.wf(),
                seq_bounded(ints(input@), MAX_MAG as int * 2),
                table_len == self.table@.len(),
                out@.len() == i,
                forall|j: int|
                    0 <= j < i ==> self.lo as int <= #[trigger] ints(input@)[j] < self.lo as int
                        + self.table@.len(),
                forall|j: int|
                    0 <= j < i ==> #[trigger] out@[j] as int == ints(self.table@)[ints(input@)[j]
                        - self.lo as int],
            decreases n - i,
        {
            let x = input[i];
            proof {
                assert(ints(input@)[i as int] == input@[i as int] as int);
                assert(-(MAX_MAG as int) * 2 <= x as int <= MAX_MAG as int * 2);
            }
            if x < self.lo {
                proof {
                    assert(!(self.lo as int <= ints(input@)[i as int]));
                }
                return Err(CircuitError::Unsatisfiable);
            }
            let offset = x - self.lo;
            if offset >= table_len as i128 {
                return Err(CircuitError::Unsatisfiable);
            }
            let entry = self.table[offset as usize];
            proof {
                assert(ints(self.table@)[offset as int] == self.table@[offset as int] as int);
            }
            out.push(entry);
            i = i + 1;
        }
        proof {
            let v = sigmoid_stage(ints(self.table@), self.lo as int, ints(input@));
            assert(v matches Some(s) ==> ints(out@) =~= s);
        }
        Ok(out)
    }
}

} // verus!

//! The shared range-check lookup table.
//!
//! One fixed column enumerates every value in `[0, 2^RANGE_BITS)`; every
//! chip that must prove a decomposition window small looks its witness up
//! in this single table rather than allocating its own.

use vstd::prelude::*;
use vstd::arithmetic::power2::pow2;
use crate::columns::{Column, ColumnKind, ConstraintSystem};
use crate::quantize::{range_check, RANGE_BITS};

verus! {

/// The shared decomposition table: one fixed column holding every
/// representable window value.
#[derive(Clone, Copy, Debug, PartialEq, Eq, Structural)]
pub struct DecompTable {
    pub column: Column,
}

impl DecompTable {
    /// The table's contents: exactly the values in `[0, 2^RANGE_BITS)`.
    pub open spec fn contains_spec(v: int) -> bool {
        0 <= v < pow2(RANGE_BITS as nat)
    }

    /// Allocates the table's fixed column.
    pub fn configure(meta: &mut ConstraintSystem) -> (t: DecompTable)
        requires
            old(meta).num_fixed < usize::MAX,
        ensures
            t.column == (Column { kind: ColumnKind::Fixed, index: old(meta).num_fixed }),
            *final(meta) == (ConstraintSystem {
                num_fixed: (old(meta).num_fixed + 1) as usize,
                ..*old(meta)
            }),
    {
        let column = meta.fixed_column();
        DecompTable { column }
    }

    /// Membership in the table.
    pub fn contains(&self, v: u64) -> (ok: bool)
        ensures
            ok <==> Self::contains_spec(v as int),
    {
        range_check(v)
    }
}

} // verus!

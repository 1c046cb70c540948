//! The constraint system's column bookkeeping and the bump allocator that
//! hands fresh columns to every chip.
//!
//! Chips are configured in sequence against one shared pool of columns;
//! the allocator's contract — every `take` returns previously unused
//! columns, in an order that is a function of the sequence of calls alone
//! — is what lets the layers compose without column collisions.

use vstd::prelude::*;

verus! {

/// The kinds of column a circuit can own.
#[derive(Clone, Copy, Debug, PartialEq, Eq, Structural)]
pub enum ColumnKind {
    /// Witness values, private to the prover.
    Advice,
    /// Constants fixed at configuration time, public.
    Fixed,
    /// Public instance values.
    Instance,
}

/// One column of the constraint system.
#[derive(Clone, Copy, Debug, PartialEq, Eq, Structural)]
pub struct Column {
    pub kind: ColumnKind,
    pub index: usize,
}

/// The shape of the constraint system as configuration sees it: how many
/// columns of each kind, selectors and gates have been created so far.
pub struct ConstraintSystem {
    pub num_advice: usize,
    pub num_fixed: usize,
    pub num_instance: usize,
    pub num_selectors: usize,
    pub num_gates: usize,
    pub num_lookups: usize,
}

impl ConstraintSystem {
    /// An empty system: no columns, selectors or gates yet.
    pub fn new() -> (r: ConstraintSystem)
        ensures
            r == (ConstraintSystem {
                num_advice: 0,
                num_fixed: 0,
                num_instance: 0,
                num_selectors: 0,
                num_gates: 0,
                num_lookups: 0,
            }),
    {
        ConstraintSystem {
            num_advice: 0,
            num_fixed: 0,
            num_instance: 0,
            num_selectors: 0,
            num_gates: 0,
            num_lookups: 0,
        }
    }

    /// How many columns of the given kind exist.
    pub open spec fn count(self, kind: ColumnKind) -> usize {
        match kind {
            ColumnKind::Advice => self.num_advice,
            ColumnKind::Fixed => self.num_fixed,
            ColumnKind::Instance => self.num_instance,
        }
    }

    /// Creates one fresh advice column.
    pub fn advice_column(&mut self) -> (c: Column)
        requires
            old(self).num_advice < usize::MAX,
        ensures
            c == (Column { kind: ColumnKind::Advice, index: old(self).num_advice }),
            *final(self) == (ConstraintSystem {
                num_advice: (old(self).num_advice + 1) as usize,
                ..*old(self)
            }),
    {
        let c = Column { kind: ColumnKind::Advice, index: self.num_advice };
        self.num_advice = self.num_advice + 1;
        c
    }

    /// Creates one fresh fixed column.
    pub fn fixed_column(&mut self) -> (c: Column)
        requires
            old(self).num_fixed < usize::MAX,
        ensures
            c == (Column { kind: ColumnKind::Fixed, index: old(self).num_fixed }),
            *final(self) == (ConstraintSystem {
                num_fixed: (old(self).num_fixed + 1) as usize,
                ..*old(self)
            }),
    {
        let c = Column { kind: ColumnKind::Fixed, index: self.num_fixed };
        self.num_fixed = self.num_fixed + 1;
        c
    }

    /// Creates one fresh instance column.
    pub fn instance_column(&mut self) -> (c: Column)
        requires
            old(self).num_instance < usize::MAX,
        ensures
            c == (Column { kind: ColumnKind::Instance, index: old(self).num_instance }),
            *final(self) == (ConstraintSystem {
                num_instance: (old(self).num_instance + 1) as usize,
                ..*old(self)
            }),
    {
        let c = Column { kind: ColumnKind::Instance, index: self.num_instance };
        self.num_instance = self.num_instance + 1;
        c
    }

    /// Creates one fresh selector.
    pub fn selector(&mut self) -> (s: usize)
        requires
            old(self).num_selectors < usize::MAX,
        ensures
            s == old(self).num_selectors,
            *final(self) == (ConstraintSystem {
                num_selectors: (old(self).num_selectors + 1) as usize,
                ..*old(self)
            }),
    {
        let s = self.num_selectors;
        self.num_selectors = self.num_selectors + 1;
        s
    }

    /// Registers one polynomial gate (a family of constraints applied at
    /// every row).
    pub fn create_gate(&mut self)
        requires
            old(self).num_gates < usize::MAX,
        ensures
            *final(self) == (ConstraintSystem {
                num_gates: (old(self).num_gates + 1) as usize,
                ..*old(self)
            }),
    {
        self.num_gates = self.num_gates + 1;
    }

    /// Registers one lookup argument into the shared table.
    pub fn lookup(&mut self)
        requires
            old(self).num_lookups < usize::MAX,
        ensures
            *final(self) == (ConstraintSystem {
                num_lookups: (old(self).num_lookups + 1) as usize,
                ..*old(self)
            }),
    {
        self.num_lookups = self.num_lookups + 1;
    }
}

/// What a `take` hands out: `n` consecutive columns of the given kind
/// starting at the system's previous count.
pub open spec fn taken_columns(kind: ColumnKind, start: int, n: int) -> Seq<Column> {
    Seq::new(n as nat, |i: int| Column { kind, index: (start + i) as usize })
}

/// The deterministic bump allocator.  It only ever moves the shared
/// system's cursor forward, so no two `take` calls — by this or any other
/// allocator of the same kind over the same system — can overlap.
pub struct ColumnAllocator {
    pub kind: ColumnKind,
    pub taken: usize,
}

impl ColumnAllocator {
    /// An allocator for columns of one kind; nothing is allocated yet.
    pub fn new(kind: ColumnKind) -> (r: ColumnAllocator)
        ensures
            r == (ColumnAllocator { kind, taken: 0 }),
    {
        ColumnAllocator { kind, taken: 0 }
    }

    /// Hands out `n` fresh columns: consecutive indices starting exactly
    /// at the system's current count of this kind, never reclaimed.
    pub fn take(&mut self, meta: &mut ConstraintSystem, n: usize) -> (cols: Vec<Column>)
        requires
            old(meta).count(old(self).kind) + n <= usize::MAX,
            old(self).taken + n <= usize::MAX,
        ensures
            cols@ == taken_columns(old(self).kind, old(meta).count(old(self).kind) as int, n as int),
            final(self).kind == old(self).kind,
            final(self).taken == old(self).taken + n,
            final(meta).count(old(self).kind) == old(meta).count(old(self).kind) + n,
            final(meta).num_selectors == old(meta).num_selectors,
            final(meta).num_gates == old(meta).num_gates,
            final(meta).num_lookups == old(meta).num_lookups,
            old(self).kind != ColumnKind::Advice ==> final(meta).num_advice == old(
                meta,
            ).num_advice,
            old(self).kind != ColumnKind::Fixed ==> final(meta).num_fixed == old(meta).num_fixed,
            old(self).kind != ColumnKind::Instance ==> final(meta).num_instance == old(
                meta,
            ).num_instance,
    {
        let ghost start = meta.count(self.kind) as int;
        let mut cols: Vec<Column> = Vec::new();
        let mut i: usize = 0;
        while i < n
            invariant
                i <= n,
                self.kind == old(self).kind,
                self.taken == old(self).taken,
                meta.count(self.kind) == start + i,
                start + n <= usize::MAX,
                cols@ =~= taken_columns(self.kind, start, i as int),
                meta.num_selectors == old(meta).num_selectors,
                meta.num_gates == old(meta).num_gates,
                meta.num_lookups == old(meta).num_lookups,
                self.kind != ColumnKind::Advice ==> meta.num_advice == old(meta).num_advice,
                self.kind != ColumnKind::Fixed ==> meta.num_fixed == old(meta).num_fixed,
                self.kind != ColumnKind::Instance ==> meta.num_instance == old(meta).num_instance,
            decreases n - i,
        {
            let c = match self.kind {
                ColumnKind::Advice => meta.advice_column(),
                ColumnKind::Fixed => meta.fixed_column(),
                ColumnKind::Instance => meta.instance_column(),
            };
            cols.push(c);
            i = i + 1;
        }
        proof {
            assert(cols@ =~= taken_columns(self.kind, start, n as int));
        }
        self.taken = self.taken + n;
        cols
    }
}

/// Freshness of allocation: the columns of two `take` calls made in
/// sequence over the same constraint system never overlap, because the
/// second call starts at or beyond where the first one ended.
pub proof fn lemma_takes_disjoint(
    kind: ColumnKind,
    start1: int,
    n1: int,
    start2: int,
    n2: int,
)
    requires
        start1 + n1 <= start2,
        0 <= start1,
        0 <= n1,
        0 <= n2,
        start2 + n2 <= usize::MAX,
    ensures
        forall|i: int, j: int|
            0 <= i < n1 && 0 <= j < n2 ==> taken_columns(kind, start1, n1)[i] != taken_columns(
                kind,
                start2,
                n2,
            )[j],
{
}

} // verus!

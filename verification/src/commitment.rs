//! The commitment chip: a hash sponge that folds a long sequence of field
//! elements into one digest.
//!
//! The circuit exposes exactly two public values — a digest of the
//! unpacked input tensor and a digest of the output tensor — so the
//! public interface stays constant-size however large the tensors are.
//! The first two elements seed the state; every further element is
//! chained through the fixed two-to-one permutation:
//! `state = H(state, next)`.

use vstd::prelude::*;
use crate::felt::Felt;
use ff_ce::PrimeField;

verus! {

#[verifier::external_type_specification]
#[verifier::external_body]
pub struct ExPoseidon(poseidon_rs::Poseidon);

/// The value of the two-to-one cryptographic permutation underlying the
/// sponge, as a function of the two absorbed field values.
pub uninterp spec fn poseidon_pair_value(a: nat, b: nat) -> nat;

/// Relies on poseidon_rs::Poseidon::new: it builds a hasher from the
/// crate's fixed round constants, the only constants a hasher can carry
/// (the constants field has no public constructor).
#[verifier::external_body]
fn new_hasher() -> poseidon_rs::Poseidon {
    poseidon_rs::Poseidon::new()
}

/// Relies on poseidon_rs::Poseidon::hash on a two-element input: every
/// hasher carries the same fixed round constants, so the digest is a
/// function of the two absorbed field values alone; the result is a
/// canonical residue, and a two-element input never reports an error.
#[verifier::external_body]
fn hash_pair(h: &poseidon_rs::Poseidon, a: &Felt, b: &Felt) -> (r: Felt)
    requires
        a.wf(),
        b.wf(),
    ensures
        r.wf(),
        r.value() == poseidon_pair_value(a.value(), b.value()),
{
    let fa = poseidon_rs::Fr::from_repr(poseidon_rs::FrRepr([a.l0, a.l1, a.l2, a.l3])).unwrap();
    let fb = poseidon_rs::Fr::from_repr(poseidon_rs::FrRepr([b.l0, b.l1, b.l2, b.l3])).unwrap();
    let out = h.hash(vec![fa, fb]).unwrap();
    let limbs = out.into_repr().0;
    Felt { l0: limbs[0], l1: limbs[1], l2: limbs[2], l3: limbs[3] }
}

/// The running digest of a sponge that absorbed the whole sequence: the
/// first two elements seed the state, and each later element is folded in
/// through the permutation.
pub open spec fn sponge_digest(s: Seq<nat>) -> nat
    recommends
        s.len() >= 2,
    decreases s.len(),
{
    if s.len() <= 2 {
        poseidon_pair_value(s[0], s[1])
    } else {
        poseidon_pair_value(sponge_digest(s.drop_last()), s.last())
    }
}

/// The field values behind a sequence of elements.
pub open spec fn felt_values(s: Seq<Felt>) -> Seq<nat> {
    s.map_values(|f: Felt| f.value())
}

/// Whether every element of a sequence is a canonical residue.
pub open spec fn all_wf(s: Seq<Felt>) -> bool {
    forall|i: int| 0 <= i < s.len() ==> #[trigger] s[i].wf()
}

/// The hash-sponge chip.  It owns one hasher, constructed once from the
/// permutation's fixed constants.
pub struct CommitmentChip {
    hasher: poseidon_rs::Poseidon,
}

impl CommitmentChip {
    /// Builds the chip.
    pub fn construct() -> CommitmentChip {
        CommitmentChip { hasher: new_hasher() }
    }

    /// Folds two elements into the sponge state.
    pub fn absorb_pair(&self, a: &Felt, b: &Felt) -> (r: Felt)
        requires
            a.wf(),
            b.wf(),
        ensures
            r.wf(),
            r.value() == poseidon_pair_value(a.value(), b.value()),
    {
        hash_pair(&self.hasher, a, b)
    }

    /// Absorbs a whole sequence of at least two elements and squeezes the
    /// running digest.
    pub fn commit(&self, elems: &Vec<Felt>) -> (r: Felt)
        requires
            elems@.len() >= 2,
            all_wf(elems@),
        ensures
            r.wf(),
            r.value() == sponge_digest(felt_values(elems@)),
    {
        let mut acc = hash_pair(&self.hasher, &elems[0], &elems[1]);
        let mut i: usize = 2;
        proof {
            assert(felt_values(elems@).take(2) =~= felt_values(elems@.take(2)));
            assert(acc.value() == sponge_digest(felt_values(elems@).take(2)));
        }
        while i < elems.len()
            invariant
                2 <= i <= elems@.len(),
                all_wf(elems@),
                acc.wf(),
                acc.value() == sponge_digest(felt_values(elems@).take(i as int)),
            decreases elems@.len() - i,
        {
            let next = hash_pair(&self.hasher, &acc, &elems[i]);
            proof {
                let vs = felt_values(elems@);
                assert(vs.take(i + 1).drop_last() =~= vs.take(i as int));
                assert(vs.take(i + 1).last() == elems@[i as int].value());
            }
            acc = next;
            i = i + 1;
        }
        proof {
            assert(felt_values(elems@).take(elems@.len() as int) =~= felt_values(elems@));
        }
        acc
    }
}

/// Columns of the in-circuit permutation chip: three state words, the
/// partial S-box cell, and two fixed round-constant columns per state
/// word.
#[derive(Clone, Copy, Debug)]
pub struct SpongeColumns {
    pub state: (crate::columns::Column, crate::columns::Column, crate::columns::Column),
    pub partial_sbox: crate::columns::Column,
    pub rc_a: (crate::columns::Column, crate::columns::Column, crate::columns::Column),
    pub rc_b: (crate::columns::Column, crate::columns::Column, crate::columns::Column),
}

impl SpongeColumns {
    /// Draws the permutation chip's columns straight from the system:
    /// four fresh advice columns and six fresh fixed columns.
    pub fn configure(meta: &mut crate::columns::ConstraintSystem) -> (r: SpongeColumns)
        requires
            old(meta).num_advice + 4 <= usize::MAX,
            old(meta).num_fixed + 6 <= usize::MAX,
        ensures
            r.state.0 == (crate::columns::Column {
                kind: crate::columns::ColumnKind::Advice,
                index: old(meta).num_advice,
            }),
            r.state.1 == (crate::columns::Column {
                kind: crate::columns::ColumnKind::Advice,
                index: (old(meta).num_advice + 1) as usize,
            }),
            r.state.2 == (crate::columns::Column {
                kind: crate::columns::ColumnKind::Advice,
                index: (old(meta).num_advice + 2) as usize,
            }),
            r.partial_sbox == (crate::columns::Column {
                kind: crate::columns::ColumnKind::Advice,
                index: (old(meta).num_advice + 3) as usize,
            }),
            r.rc_a.0 == (crate::columns::Column {
                kind: crate::columns::ColumnKind::Fixed,
                index: old(meta).num_fixed,
            }),
            r.rc_a.1 == (crate::columns::Column {
                kind: crate::columns::ColumnKind::Fixed,
                index: (old(meta).num_fixed + 1) as usize,
            }),
            r.rc_a.2 == (crate::columns::Column {
                kind: crate::columns::ColumnKind::Fixed,
                index: (old(meta).num_fixed + 2) as usize,
            }),
            r.rc_b.0 == (crate::columns::Column {
                kind: crate::columns::ColumnKind::Fixed,
                index: (old(meta).num_fixed + 3) as usize,
            }),
            r.rc_b.1 == (crate::columns::Column {
                kind: crate::columns::ColumnKind::Fixed,
                index: (old(meta).num_fixed + 4) as usize,
            }),
            r.rc_b.2 == (crate::columns::Column {
                kind: crate::columns::ColumnKind::Fixed,
                index: (old(meta).num_fixed + 5) as usize,
            }),
            final(meta).num_advice == old(meta).num_advice + 4,
            final(meta).num_fixed == old(meta).num_fixed + 6,
            final(meta).num_instance == old(meta).num_instance,
            final(meta).num_selectors == old(meta).num_selectors,
            final(meta).num_gates == old(meta).num_gates,
            final(meta).num_lookups == old(meta).num_lookups,
    {
        let s0 = meta.advice_column();
        let s1 = meta.advice_column();
        let s2 = meta.advice_column();
        let partial_sbox = meta.advice_column();
        let a0 = meta.fixed_column();
        let a1 = meta.fixed_column();
        let a2 = meta.fixed_column();
        let b0 = meta.fixed_column();
        let b1 = meta.fixed_column();
        let b2 = meta.fixed_column();
        SpongeColumns {
            state: (s0, s1, s2),
            partial_sbox,
            rc_a: (a0, a1, a2),
            rc_b: (b0, b1, b2),
        }
    }
}

/// Determinism of the commitment: the digest is a function of the
/// absorbed values alone, so two runs over equal sequences agree.
pub proof fn lemma_commitment_deterministic(s1: Seq<nat>, s2: Seq<nat>)
    requires
        s1 =~= s2,
    ensures
        sponge_digest(s1) == sponge_digest(s2),
{
}

} // verus!

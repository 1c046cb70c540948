//! Binary decomposition of packed machine words.
//!
//! An input plane arrives as one packed field value; the unpacking gate
//! states that the plane's bits are boolean and that their binary-weighted
//! sum reconstructs the packed value.  This module holds that arithmetic:
//! extraction of bits, the weighted sum, and the uniqueness of binary
//! representation that makes packing and unpacking mutual inverses.

use vstd::prelude::*;
use vstd::arithmetic::power2::{
    pow2,
    lemma_pow2_adds,
    lemma_pow2_pos,
    lemma2_to64,
    lemma2_to64_rest,
};
use vstd::arithmetic::div_mod::{lemma_breakdown, lemma_small_mod, lemma_div_pos_is_pos};
use vstd::bits::{lemma_u64_shr_is_div, lemma_u64_shl_is_mul};

verus! {

/// Bit `k` of a machine word, as the integer 0 or 1.
pub open spec fn bit(v: u64, k: int) -> int {
    ((v as int) / (pow2(k as nat) as int)) % 2
}

/// The low `n` bits of a word, lowest first.
pub open spec fn bits_of(v: u64, n: nat) -> Seq<int> {
    Seq::new(n, |k: int| bit(v, k))
}

/// The binary-weighted sum of a sequence: position `k` carries weight
/// `2^k`.
pub open spec fn weighted_sum(s: Seq<int>) -> int
    decreases s.len(),
{
    if s.len() == 0 {
        0
    } else {
        weighted_sum(s.drop_last()) + s.last() * pow2((s.len() - 1) as nat)
    }
}

/// Whether every entry of a sequence is a boolean value.
pub open spec fn all_binary(s: Seq<int>) -> bool {
    forall|i: int| #![trigger s[i]] 0 <= i < s.len() ==> (s[i] == 0 || s[i] == 1)
}

/// The integers behind a vector of machine words.
pub open spec fn ints_of(s: Seq<u64>) -> Seq<int> {
    s.map_values(|x: u64| x as int)
}

/// Every extracted bit is a boolean value.
pub proof fn lemma_bit_binary(v: u64, k: int)
    requires
        0 <= k,
    ensures
        bit(v, k) == 0 || bit(v, k) == 1,
{
    lemma_pow2_pos(k as nat);
    lemma_div_pos_is_pos(v as int, pow2(k as nat) as int);
}

/// The low `n` bits of a word are all boolean.
pub proof fn lemma_bits_of_binary(v: u64, n: nat)
    ensures
        all_binary(bits_of(v, n)),
{
    assert forall|i: int| #![trigger bits_of(v, n)[i]] 0 <= i < n implies (bits_of(v, n)[i] == 0
        || bits_of(v, n)[i] == 1) by {
        lemma_bit_binary(v, i);
    }
}

/// Summing the low `n` bits with their binary weights yields the word's
/// residue modulo `2^n`.
pub proof fn lemma_weighted_sum_of_bits(v: u64, n: nat)
    ensures
        weighted_sum(bits_of(v, n)) == (v as int) % (pow2(n) as int),
    decreases n,
{
    if n == 0 {
        assert(bits_of(v, 0).len() == 0);
        assert(pow2(0) == 1) by {
            lemma2_to64();
        }
    } else {
        lemma_weighted_sum_of_bits(v, (n - 1) as nat);
        assert(bits_of(v, n).drop_last() =~= bits_of(v, (n - 1) as nat));
        lemma_pow2_pos((n - 1) as nat);
        lemma_pow2_adds((n - 1) as nat, 1);
        assert(pow2(1) == 2) by {
            lemma2_to64();
        }
        lemma_breakdown(v as int, pow2((n - 1) as nat) as int, 2);
        assert(bits_of(v, n).last() == bit(v, n - 1));
    }
}

/// The binary-weighted sum of `n` boolean values lies in `[0, 2^n)`.
pub proof fn lemma_weighted_sum_bound(s: Seq<int>)
    requires
        all_binary(s),
    ensures
        0 <= weighted_sum(s) < pow2(s.len()),
    decreases s.len(),
{
    if s.len() == 0 {
        assert(pow2(0) == 1) by {
            lemma2_to64();
        }
    } else {
        assert(all_binary(s.drop_last()));
        lemma_weighted_sum_bound(s.drop_last());
        lemma_pow2_adds((s.len() - 1) as nat, 1);
        assert(pow2(1) == 2) by {
            lemma2_to64();
        }
        assert(s.last() == 0 || s.last() == 1);
    }
}

/// Uniqueness of binary representation: two boolean sequences of equal
/// length with the same weighted sum are the same sequence.
pub proof fn lemma_binary_representation_unique(s1: Seq<int>, s2: Seq<int>)
    requires
        all_binary(s1),
        all_binary(s2),
        s1.len() == s2.len(),
        weighted_sum(s1) == weighted_sum(s2),
    ensures
        s1 =~= s2,
    decreases s1.len(),
{
    if s1.len() > 0 {
        assert(all_binary(s1.drop_last()));
        assert(all_binary(s2.drop_last()));
        lemma_weighted_sum_bound(s1.drop_last());
        lemma_weighted_sum_bound(s2.drop_last());
        assert(s1.last() == s2.last());
        lemma_binary_representation_unique(s1.drop_last(), s2.drop_last());
        assert forall|i: int| 0 <= i < s1.len() implies s1[i] == s2[i] by {
            if i < s1.len() - 1 {
                assert(s1.drop_last()[i] == s2.drop_last()[i]);
            }
        }
    }
}

/// Re-summing the low `n` bits of a word below `2^n` reproduces the word
/// exactly.
pub proof fn lemma_bits_reconstruct(v: u64, n: nat)
    requires
        v < pow2(n),
    ensures
        weighted_sum(bits_of(v, n)) == v,
{
    lemma_weighted_sum_of_bits(v, n);
    lemma_small_mod(v as nat, pow2(n));
}

/// Unpacking is a left inverse of packing: the bits of the weighted sum
/// of any boolean sequence are that sequence again.
pub proof fn lemma_unpack_of_pack(s: Seq<int>, v: u64, n: nat)
    requires
        all_binary(s),
        s.len() == n,
        n <= 64,
        v as int == weighted_sum(s),
    ensures
        bits_of(v, n) =~= s,
{
    lemma_weighted_sum_bound(s);
    lemma_bits_of_binary(v, n);
    lemma_bits_reconstruct(v, n);
    lemma_binary_representation_unique(bits_of(v, n), s);
}

/// Extracts the low `n` bits of a packed word, lowest first.
pub fn unpack_bits(v: u64, n: usize) -> (bits: Vec<u64>)
    requires
        n <= 64,
    ensures
        bits@.len() == n,
        ints_of(bits@) =~= bits_of(v, n as nat),
{
    let mut bits: Vec<u64> = Vec::new();
    let mut k: usize = 0;
    while k < n
        invariant
            k <= n,
            n <= 64,
            bits@.len() == k,
            forall|i: int| 0 <= i < k ==> bits@[i] as int == bit(v, i),
        decreases n - k,
    {
        let b: u64 = (v >> (k as u64)) & 1;
        proof {
            lemma_u64_shr_is_div(v, k as u64);
            let x = v >> (k as u64);
            assert((x & 1) == x % 2) by (bit_vector);
            lemma_pow2_pos(k as nat);
        }
        bits.push(b);
        k = k + 1;
    }
    bits
}

/// Packs boolean values into a word by their binary weights.
pub fn pack_bits(bits: &Vec<u64>) -> (v: u64)
    requires
        bits@.len() <= 64,
        all_binary(ints_of(bits@)),
    ensures
        v as int == weighted_sum(ints_of(bits@)),
{
    let n = bits.len();
    let mut acc: u64 = 0;
    let mut k: usize = 0;
    proof {
        assert(ints_of(bits@).take(0) =~= Seq::<int>::empty());
    }
    while k < n
        invariant
            k <= n,
            n == bits@.len() <= 64,
            all_binary(ints_of(bits@)),
            acc as int == weighted_sum(ints_of(bits@).take(k as int)),
        decreases n - k,
    {
        proof {
            let s = ints_of(bits@);
            let b = bits@[k as int];
            assert(s[k as int] == b as int);
            assert(s[k as int] == 0 || s[k as int] == 1);
            assert(s.take(k + 1).drop_last() =~= s.take(k as int));
            assert(s.take(k + 1).last() == s[k as int]);
            assert(all_binary(s.take(k as int)));
            lemma_weighted_sum_bound(s.take(k as int));
            vstd::bits::lemma_u64_pow2_no_overflow(k as nat);
            if b == 1 {
                assert(b * pow2(k as nat) == pow2(k as nat));
            } else {
                assert(b * pow2(k as nat) == 0);
            }
            lemma_u64_shl_is_mul(b, k as u64);
            lemma_pow2_adds(k as nat, 1);
            lemma2_to64();
            lemma2_to64_rest();
            if k + 1 < 64 {
                vstd::arithmetic::power2::lemma_pow2_strictly_increases((k + 1) as nat, 64);
            }
        }
        let b = bits[k];
        acc = acc + (b << (k as u64));
        k = k + 1;
    }
    proof {
        assert(ints_of(bits@).take(n as int) =~= ints_of(bits@));
    }
    acc
}

} // verus!

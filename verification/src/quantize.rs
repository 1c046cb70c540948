//! Fixed-point quantization primitives and the shared range-check window.
//!
//! Every value that flows through the network is a signed fixed-point
//! integer scaled by `SCALING_FACTOR`.  Wide accumulators produced by the
//! linear layers are brought back to the quantized domain by a Euclidean
//! decomposition `acc == q * SCALING_FACTOR + r` with `0 <= r <
//! SCALING_FACTOR`; the circuit proves the decomposition by looking the
//! remainder windows and the quotient windows up in a single shared table
//! of size `2^RANGE_BITS`.

use vstd::prelude::*;
use vstd::arithmetic::power2::pow2;
use vstd::arithmetic::power2::lemma2_to64;
use vstd::arithmetic::div_mod::lemma_fundamental_div_mod;
use vstd::bits::lemma_u64_shr_is_div;

verus! {

/// Width of one lookup window: the shared table holds exactly the values
/// `[0, 2^RANGE_BITS)`.
pub const RANGE_BITS: u64 = 10;

/// Number of entries of the shared lookup table, `2^RANGE_BITS`.
pub const RANGE_TABLE_SIZE: u64 = 1024;

/// The global fixed-point radix (`2^20`): a quantized value `x` stands for
/// the rational `x / SCALING_FACTOR`.
pub const SCALING_FACTOR: u64 = 1048576;

/// Largest magnitude a quantized value may take and still be decomposable
/// into the fixed number of quotient windows (`2^40`, four windows).
pub const MAX_MAG: i128 = 1099511627776;

/// The quotient of the range decomposition: Euclidean division by the
/// fixed-point radix (the remainder is non-negative).
pub open spec fn norm_spec(x: int) -> int {
    x / (SCALING_FACTOR as int)
}

/// Whether an accumulator admits the chip's full decomposition: its
/// quotient must fit the fixed number of quotient windows.
pub open spec fn norm_in_range(x: int) -> bool {
    -(MAX_MAG as int) <= norm_spec(x) <= MAX_MAG as int
}

/// The quantization constants are the powers of two they stand for.
pub proof fn lemma_quantization_constants()
    ensures
        RANGE_TABLE_SIZE == pow2(RANGE_BITS as nat),
        SCALING_FACTOR == pow2(20),
        MAX_MAG == pow2(40),
{
    lemma2_to64();
    vstd::arithmetic::power2::lemma2_to64_rest();
}

/// The shared table's membership test: a value is accepted exactly when it
/// lies in `[0, 2^RANGE_BITS)`.
pub fn range_check(value: u64) -> (ok: bool)
    ensures
        ok <==> (value as nat) < pow2(RANGE_BITS as nat),
{
    proof {
        lemma2_to64();
    }
    value < RANGE_TABLE_SIZE
}

/// The table rejects exactly the values with some bit at position
/// `RANGE_BITS` or above set: acceptance is equivalent to all high bits
/// being zero.
pub proof fn lemma_range_check_high_bits(value: u64)
    ensures
        ((value as nat) < pow2(RANGE_BITS as nat)) <==> (value >> RANGE_BITS == 0),
{
    lemma_u64_shr_is_div(value, RANGE_BITS);
    lemma2_to64();
}

/// Euclidean decomposition of a wide accumulator over the fixed-point
/// radix: `x == q * SCALING_FACTOR + r` with the remainder in
/// `[0, SCALING_FACTOR)`, as the range-check gate states it.
pub fn decompose(x: i128) -> (qr: (i128, i128))
    ensures
        x == qr.0 * (SCALING_FACTOR as int) + qr.1,
        0 <= qr.1 < SCALING_FACTOR as int,
        qr.0 == norm_spec(x as int),
{
    let sf: i128 = SCALING_FACTOR as i128;
    proof {
        lemma_fundamental_div_mod(x as int, sf as int);
    }
    let q = x.checked_div_euclid(sf).unwrap();
    let r = x.checked_rem_euclid(sf).unwrap();
    (q, r)
}

/// Quantized renormalization: divides an accumulator by the fixed-point
/// radix, or reports the circuit unsatisfiable when the quotient does not
/// fit the chip's quotient windows.
pub fn normalize(x: i128) -> (res: Result<i128, crate::error::CircuitError>)
    ensures
        res == if norm_in_range(x as int) {
            Ok::<i128, crate::error::CircuitError>(norm_spec(x as int) as i128)
        } else {
            Err::<i128, crate::error::CircuitError>(crate::error::CircuitError::Unsatisfiable)
        },
{
    let (q, _r) = decompose(x);
    if -MAX_MAG <= q && q <= MAX_MAG {
        Ok(q)
    } else {
        Err(crate::error::CircuitError::Unsatisfiable)
    }
}

/// Renormalization fused with the rectifier: negative accumulators clamp
/// to zero through the sign window of the same decomposition.
pub fn relu_normalize(x: i128) -> (res: Result<i128, crate::error::CircuitError>)
    ensures
        res == if norm_in_range(x as int) {
            Ok::<i128, crate::error::CircuitError>(
                if x < 0 { 0int } else { norm_spec(x as int) } as i128,
            )
        } else {
            Err::<i128, crate::error::CircuitError>(crate::error::CircuitError::Unsatisfiable)
        },
{
    let (q, _r) = decompose(x);
    if -MAX_MAG <= q && q <= MAX_MAG {
        if x < 0 {
            Ok(0)
        } else {
            Ok(q)
        }
    } else {
        Err(crate::error::CircuitError::Unsatisfiable)
    }
}

/// The plain rectifier on an already-quantized value: clamps negatives to
/// zero, and is satisfiable only for values the sign decomposition covers.
pub fn relu(x: i128) -> (res: Result<i128, crate::error::CircuitError>)
    ensures
        res == if -(MAX_MAG as int) <= x <= MAX_MAG as int {
            Ok::<i128, crate::error::CircuitError>(if x < 0 { 0i128 } else { x })
        } else {
            Err::<i128, crate::error::CircuitError>(crate::error::CircuitError::Unsatisfiable)
        },
{
    if -MAX_MAG <= x && x <= MAX_MAG {
        if x < 0 {
            Ok(0)
        } else {
            Ok(x)
        }
    } else {
        Err(crate::error::CircuitError::Unsatisfiable)
    }
}

} // verus!

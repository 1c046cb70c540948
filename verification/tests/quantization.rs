//! Range-check, bit-decomposition and field-embedding behaviour.

use leela_circuit::bits::{pack_bits, unpack_bits};
use leela_circuit::columns::{ColumnAllocator, ColumnKind, ConstraintSystem};
use leela_circuit::felt::Felt;
use leela_circuit::input_unpacking::{check_unpacking_witness, InputUnpackingChip};
use leela_circuit::quantize::{
    decompose, normalize, range_check, relu, relu_normalize, MAX_MAG, RANGE_TABLE_SIZE,
    SCALING_FACTOR,
};

#[test]
fn range_check_accepts_window_values() {
    assert!(range_check(0));
    assert!(range_check(1));
    assert!(range_check(RANGE_TABLE_SIZE - 1));
}

#[test]
fn range_check_rejects_high_bits() {
    // Every value with a bit at or above the window width is rejected.
    assert!(!range_check(RANGE_TABLE_SIZE));
    assert!(!range_check(RANGE_TABLE_SIZE + 1));
    assert!(!range_check(1 << 10));
    assert!(!range_check(1 << 11));
    assert!(!range_check(u64::MAX));
}

#[test]
fn decompose_splits_over_the_radix() {
    let sf = SCALING_FACTOR as i128;
    let (q, r) = decompose(5 * sf + 17);
    assert_eq!(q, 5);
    assert_eq!(r, 17);
    // Negative accumulators keep a non-negative remainder.
    let (q, r) = decompose(-1);
    assert_eq!(q, -1);
    assert_eq!(r, sf - 1);
}

#[test]
fn normalize_rounds_toward_minus_infinity() {
    let sf = SCALING_FACTOR as i128;
    assert_eq!(normalize(7 * sf), Ok(7));
    assert_eq!(normalize(7 * sf + 1), Ok(7));
    assert_eq!(normalize(-7 * sf - 1), Ok(-8));
    assert_eq!(
        normalize((MAX_MAG + 1) * sf),
        Err(leela_circuit::error::CircuitError::Unsatisfiable)
    );
}

#[test]
fn relu_clamps_negative_values() {
    let sf = SCALING_FACTOR as i128;
    assert_eq!(relu_normalize(-5 * sf), Ok(0));
    assert_eq!(relu_normalize(5 * sf), Ok(5));
    assert_eq!(relu(-3), Ok(0));
    assert_eq!(relu(3), Ok(3));
    assert_eq!(
        relu(MAX_MAG + 1),
        Err(leela_circuit::error::CircuitError::Unsatisfiable)
    );
}

#[test]
fn bits_round_trip() {
    // Re-summing the weighted bits reproduces the packed value, and
    // unpacking the packed sum gives the bits back.
    for v in [0u64, 1, 10, 0xdead_beef, u64::MAX] {
        let bits = unpack_bits(v, 64);
        assert_eq!(bits.len(), 64);
        assert!(bits.iter().all(|&b| b <= 1));
        assert_eq!(pack_bits(&bits), v);
    }
    let bits: Vec<u64> = (0..64).map(|i| (i % 2) as u64).collect();
    let packed = pack_bits(&bits);
    assert_eq!(unpack_bits(packed, 64), bits);
}

#[test]
fn unpacking_witness_gate() {
    let good = unpack_bits(10, 64);
    assert!(check_unpacking_witness(10, &good));
    // A flipped bit breaks the reconstruction constraint.
    let mut bad = unpack_bits(10, 64);
    bad[0] = 1;
    assert!(!check_unpacking_witness(10, &bad));
    // A non-boolean output breaks the quadratic constraint.
    let mut bad = unpack_bits(10, 64);
    bad[1] = 2;
    assert!(!check_unpacking_witness(10, &bad));
}

#[test]
fn test_simple_conv() {
    const WIDTH: usize = 8;
    const HEIGHT: usize = 8;
    const TEST_INPUT: [u64; 4] = [10, 0, 10, 0];

    let mut meta = ConstraintSystem::new();
    let mut advice_allocator = ColumnAllocator::new(ColumnKind::Advice);
    let config =
        InputUnpackingChip::configure(&mut meta, (WIDTH, HEIGHT), &mut advice_allocator);
    let chip = InputUnpackingChip::construct(config);

    let input: Vec<u64> = TEST_INPUT.to_vec();
    let output = chip.add_layer(&input).unwrap();

    let expected: Vec<i128> = TEST_INPUT
        .iter()
        .map(|&x| {
            let mut result = vec![];
            let mut x = x;
            loop {
                let m = x % 2;
                x /= 2;
                result.push(m);
                if x == 0 {
                    break;
                }
            }
            result
        })
        .flat_map(|mut x| {
            x.resize(WIDTH * HEIGHT, 0);
            x
        })
        .map(|x| (x * 1_048_576) as i128)
        .collect();

    assert_eq!(output.data, expected);
}

#[test]
fn felt_signed_embedding_round_trip() {
    for x in [0i64, 1, -1, 42, -42, i64::MAX, i64::MIN] {
        let f = Felt::from_i64(x);
        assert_eq!(f.to_i64(), x);
    }
    // Non-negative values embed as themselves.
    let f = Felt::from_i64(7);
    assert_eq!((f.l0, f.l1, f.l2, f.l3), (7, 0, 0, 0));
    // Negative values sit just below the modulus.
    let f = Felt::from_i64(-1);
    assert_eq!(
        (f.l0, f.l1, f.l2, f.l3),
        (
            0x43E1F593F0000000,
            0x2833E84879B97091,
            0xB85045B68181585D,
            0x30644E72E131A029
        )
    );
}

#[test]
fn felt_bytes_big_endian() {
    let one = Felt::one();
    let bytes = one.to_bytes_be();
    assert_eq!(bytes.len(), 32);
    assert_eq!(bytes[31], 1);
    assert!(bytes[..31].iter().all(|&b| b == 0));
}

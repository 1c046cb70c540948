//! Layer-chip arithmetic against plain reference computations.

use leela_circuit::columns::{ColumnAllocator, ColumnKind, ConstraintSystem};
use leela_circuit::conv::{Conv3DLayerChip, Conv3DLayerConfigParams, Conv3DLayerParams};
use leela_circuit::error::CircuitError;
use leela_circuit::linear::{
    gather, AvgPool2DChip, BatchnormChip, BatchnormChipParams, DistributedAddChip,
    DistributedMulChip, FcChip, FcChipConfig, FcChipParams, ResidualAdd2DChip,
};
use leela_circuit::lookup::DecompTable;
use leela_circuit::nonlinear::{Normalize2dChip, SigmoidChip};
use leela_circuit::quantize::SCALING_FACTOR;
use leela_circuit::tensor::{Matrix, Tensor3, Tensor4};

fn meta_and_allocators() -> (ConstraintSystem, ColumnAllocator, ColumnAllocator) {
    (
        ConstraintSystem::new(),
        ColumnAllocator::new(ColumnKind::Advice),
        ColumnAllocator::new(ColumnKind::Fixed),
    )
}

#[test]
fn batchnorm_matches_plain_reference() {
    // output[c] = input[c] * scale[c] + shift[c], per cell of each plane.
    let (mut meta, mut advice, _fixed) = meta_and_allocators();
    let config = BatchnormChip::configure(&mut meta, &mut advice);
    let chip = BatchnormChip::construct(config);

    let depth = 3usize;
    let (h, w) = (2usize, 2usize);
    let data: Vec<i128> = (0..(depth * h * w) as i128).map(|x| x - 5).collect();
    let input = Tensor3 { depth, height: h, width: w, data: data.clone() };
    let scalars: Vec<(i128, i128)> = vec![(2, 1), (-3, 7), (0, -2)];
    let params = BatchnormChipParams { scalars: scalars.clone() };

    let out = chip.add_layer(&input, &params).unwrap();

    // Independent plain-arithmetic reference.
    let mut expected = Vec::new();
    for c in 0..depth {
        for j in 0..h * w {
            let x = data[c * h * w + j];
            expected.push(x * scalars[c].0 + scalars[c].1);
        }
    }
    assert_eq!(out.data, expected);
}

#[test]
fn batchnorm_rejects_wrong_channel_count() {
    let (mut meta, mut advice, _fixed) = meta_and_allocators();
    let chip = BatchnormChip::construct(BatchnormChip::configure(&mut meta, &mut advice));
    let input = Tensor3 { depth: 2, height: 1, width: 1, data: vec![1, 2] };
    let params = BatchnormChipParams { scalars: vec![(1, 0)] };
    assert!(matches!(chip.add_layer(&input, &params), Err(CircuitError::ShapeMismatch)));
}

/// A plain fixed-point convolution, written independently of the chip.
fn conv_reference(
    input: &[i128],
    (d, h, w): (usize, usize, usize),
    kernel: &[i128],
    (od, kh, kw): (usize, usize, usize),
    pad: usize,
) -> Vec<i128> {
    let oh = h + 2 * pad + 1 - kh;
    let ow = w + 2 * pad + 1 - kw;
    let mut out = Vec::new();
    for o in 0..od {
        for y in 0..oh {
            for x in 0..ow {
                let mut acc: i128 = 0;
                for id in 0..d {
                    for ky in 0..kh {
                        for kx in 0..kw {
                            let iy = y + ky;
                            let ix = x + kx;
                            let v = if iy >= pad && iy - pad < h && ix >= pad && ix - pad < w {
                                input[(id * h + (iy - pad)) * w + (ix - pad)]
                            } else {
                                0
                            };
                            let k = kernel[((o * kh + ky) * kw + kx) * d + id];
                            acc += v * k;
                        }
                    }
                }
                out.push(acc);
            }
        }
    }
    out
}

#[test]
fn small_conv_matches_plain_reference() {
    // One 8x8x4 input of all ones, an all-ones 3x3 kernel, padding 1.
    let (mut meta, mut advice, mut fixed) = meta_and_allocators();
    let config_params = Conv3DLayerConfigParams {
        input_height: 8,
        input_width: 8,
        input_depth: 4,
        ker_height: 3,
        ker_width: 3,
        padding_height: 1,
        padding_width: 1,
        folding_factor: 2,
    };
    let config = Conv3DLayerChip::configure(&mut meta, config_params, &mut advice, &mut fixed);
    let chip = Conv3DLayerChip::construct(config);

    let (d, h, w) = (4usize, 8usize, 8usize);
    let input_data: Vec<i128> = vec![1; d * h * w];
    let input = Tensor3 { depth: d, height: h, width: w, data: input_data.clone() };
    let kernel_data: Vec<i128> = vec![1; 1 * 3 * 3 * d];
    let kernals = Tensor4 {
        out_depth: 1,
        ker_height: 3,
        ker_width: 3,
        in_depth: d,
        data: kernel_data.clone(),
    };
    let out = chip.add_layer(&input, &Conv3DLayerParams { kernals }).unwrap();

    let expected = conv_reference(&input_data, (d, h, w), &kernel_data, (1, 3, 3), 1);
    assert_eq!(out.data, expected);
    // Spot values: a corner sees a 2x2 window per channel, the middle 3x3.
    assert_eq!(out.data[0], 4 * 4);
    assert_eq!(out.data[9], 4 * 9);
}

#[test]
fn conv_rejects_mismatched_kernel() {
    let (mut meta, mut advice, mut fixed) = meta_and_allocators();
    let config_params = Conv3DLayerConfigParams {
        input_height: 4,
        input_width: 4,
        input_depth: 1,
        ker_height: 3,
        ker_width: 3,
        padding_height: 1,
        padding_width: 1,
        folding_factor: 1,
    };
    let config = Conv3DLayerChip::configure(&mut meta, config_params, &mut advice, &mut fixed);
    let chip = Conv3DLayerChip::construct(config);
    let input = Tensor3 { depth: 1, height: 4, width: 4, data: vec![0; 16] };
    // Kernel declares two input channels; the input has one.
    let kernals = Tensor4 {
        out_depth: 1,
        ker_height: 3,
        ker_width: 3,
        in_depth: 2,
        data: vec![0; 18],
    };
    assert!(matches!(
        chip.add_layer(&input, &Conv3DLayerParams { kernals }),
        Err(CircuitError::ShapeMismatch)
    ));
}

#[test]
fn normalize_chip_divides_by_radix() {
    let (mut meta, mut advice, _fixed) = meta_and_allocators();
    let table = DecompTable::configure(&mut meta);
    let chip = Normalize2dChip::construct(Normalize2dChip::configure(
        &mut meta,
        &mut advice,
        table,
    ));
    let sf = SCALING_FACTOR as i128;
    let input = Tensor3 {
        depth: 1,
        height: 2,
        width: 2,
        data: vec![3 * sf, -2 * sf, sf + 5, -1],
    };
    let out = chip.add_layer(&input).unwrap();
    assert_eq!(out.data, vec![3, -2, 1, -1]);
    // sigmoid/normalize error path: a quotient beyond the windows.
    let too_wide = Tensor3 {
        depth: 1,
        height: 1,
        width: 1,
        data: vec![(leela_circuit::quantize::MAX_MAG + 1) * sf],
    };
    assert!(matches!(
        chip.add_layer(&too_wide),
        Err(CircuitError::Unsatisfiable)
    ));
}

#[test]
fn fully_connected_matches_plain_reference() {
    let (mut meta, mut advice, mut fixed) = meta_and_allocators();
    let config = FcChip::configure(
        &mut meta,
        FcChipConfig { weights_height: 2, weights_width: 3, folding_factor: 1 },
        &mut advice,
        &mut fixed,
    );
    let chip = FcChip::construct(config);
    // weights = [[1, 2, 3], [-1, 0, 2]], biases = [10, -4], input = [5, 6, 7]
    let weights = Matrix { rows: 2, cols: 3, data: vec![1, 2, 3, -1, 0, 2] };
    let params = FcChipParams { weights, biases: vec![10, -4] };
    let out = chip.add_layer(&vec![5, 6, 7], &params).unwrap();
    assert_eq!(out, vec![5 + 12 + 21 + 10, -5 + 14 - 4]);
}

#[test]
fn avg_pool_averages_each_plane() {
    let (mut meta, mut advice, _fixed) = meta_and_allocators();
    let chip = AvgPool2DChip::construct(AvgPool2DChip::configure(&mut meta, &mut advice));
    // 2x2 planes: the pooled value is the plain average (radix / 4 scale,
    // then renormalized).
    let input = Tensor3 {
        depth: 2,
        height: 2,
        width: 2,
        data: vec![4, 4, 4, 4, 1, 2, 3, 6],
    };
    let out = chip.add_layer(&input).unwrap();
    assert_eq!(out, vec![4, 3]);
}

#[test]
fn distributed_ops_scale_and_shift_channels() {
    let (mut meta, mut advice, _fixed) = meta_and_allocators();
    let mul_chip =
        DistributedMulChip::construct(DistributedMulChip::configure(&mut meta, &mut advice));
    let add_chip =
        DistributedAddChip::construct(DistributedAddChip::configure(&mut meta, &mut advice));
    let input = Tensor3 { depth: 2, height: 1, width: 2, data: vec![1, 2, 3, 4] };
    let scaled = mul_chip.add_layer(&input, &vec![10, -1]).unwrap();
    assert_eq!(scaled.data, vec![10, 20, -3, -4]);
    let shifted = add_chip.add_layer(&scaled, &vec![1, 2]).unwrap();
    assert_eq!(shifted.data, vec![11, 21, -1, -2]);
}

#[test]
fn residual_add_sums_cellwise() {
    let (mut meta, mut advice, _fixed) = meta_and_allocators();
    let chip = ResidualAdd2DChip::construct(ResidualAdd2DChip::configure(&mut meta, &mut advice));
    let a = Tensor3 { depth: 1, height: 2, width: 2, data: vec![1, 2, 3, 4] };
    let b = Tensor3 { depth: 1, height: 2, width: 2, data: vec![10, 20, 30, 40] };
    let out = chip.add_layer(&a, &b).unwrap();
    assert_eq!(out.data, vec![11, 22, 33, 44]);
    let c = Tensor3 { depth: 1, height: 1, width: 4, data: vec![0, 0, 0, 0] };
    assert!(matches!(chip.add_layer(&a, &c), Err(CircuitError::ShapeMismatch)));
}

#[test]
fn sigmoid_reads_its_table() {
    let (mut meta, mut advice, _fixed) = meta_and_allocators();
    let chip = SigmoidChip::configure(&mut meta, &mut advice, vec![100, 200, 300], -1);
    assert_eq!(chip.add_layer(&vec![-1, 0, 1]).unwrap(), vec![100, 200, 300]);
    // An input outside the table's domain is unsatisfiable.
    assert_eq!(chip.add_layer(&vec![2]), Err(CircuitError::Unsatisfiable));
    assert_eq!(chip.add_layer(&vec![-2]), Err(CircuitError::Unsatisfiable));
}

#[test]
fn gather_reorders_and_rejects_bad_indices() {
    let input = vec![10, 20, 30, 40];
    assert_eq!(gather(&input, &vec![3, 0, 0, 2]).unwrap(), vec![40, 10, 10, 30]);
    assert_eq!(gather(&input, &vec![4]), Err(CircuitError::ShapeMismatch));
}

#[test]
fn tensor_build_checks_shape() {
    assert!(Tensor3::build(2, 2, 2, vec![0; 8]).is_ok());
    assert!(matches!(
        Tensor3::build(2, 2, 2, vec![0; 7]),
        Err(CircuitError::ShapeMismatch)
    ));
}

//! Tensors of assigned values.
//!
//! A tensor is an ordered, shape-checked array of signed fixed-point
//! values; shapes are configuration-time constants per layer, never
//! dynamic.  Values are created during one synthesis pass and only read
//! afterwards.

use vstd::prelude::*;
use vstd::std_specs::vec::spec_vec_len;
use crate::error::CircuitError;

verus! {

/// A vector's length always fits the machine's word.
pub proof fn lemma_vec_len_bound(v: &Vec<i128>)
    ensures
        v@.len() <= usize::MAX,
{
    assert(spec_vec_len(v) == v@.len());
}

/// A depth × height × width tensor of network activations, stored
/// row-major as one flat vector.
#[derive(Clone, Debug)]
pub struct Tensor3 {
    pub depth: usize,
    pub height: usize,
    pub width: usize,
    pub data: Vec<i128>,
}

/// An (out-depth × kernel-height × kernel-width × in-depth) convolution
/// kernel tensor, stored row-major as one flat vector.
#[derive(Clone, Debug)]
pub struct Tensor4 {
    pub out_depth: usize,
    pub ker_height: usize,
    pub ker_width: usize,
    pub in_depth: usize,
    pub data: Vec<i128>,
}

/// A rows × cols weight matrix, stored row-major as one flat vector.
#[derive(Clone, Debug)]
pub struct Matrix {
    pub rows: usize,
    pub cols: usize,
    pub data: Vec<i128>,
}

/// The integers behind a sequence of machine values.
pub open spec fn ints(s: Seq<i128>) -> Seq<int> {
    s.map_values(|x: i128| x as int)
}

/// Whether every entry of a flat value sequence lies within `[-b, b]`.
pub open spec fn seq_bounded(s: Seq<int>, b: int) -> bool {
    forall|i: int| 0 <= i < s.len() ==> -b <= #[trigger] s[i] <= b
}

/// The channel behind a row-major flat position.
pub open spec fn flat_d(i: int, h: int, w: int) -> int {
    i / (h * w)
}

/// The row behind a row-major flat position.
pub open spec fn flat_y(i: int, h: int, w: int) -> int {
    (i % (h * w)) / w
}

/// The column behind a row-major flat position.
pub open spec fn flat_x(i: int, h: int, w: int) -> int {
    i % w
}

/// A flat sequence laid out row-major over a depth × height × width grid,
/// with every cell given by a function of its coordinates.
pub open spec fn grid_vals(d: int, h: int, w: int, f: spec_fn(int, int, int) -> int) -> Seq<int> {
    Seq::new((d * h * w) as nat, |i: int| f(flat_d(i, h, w), flat_y(i, h, w), flat_x(i, h, w)))
}

/// Decoding a row-major position recovers the cell's coordinates.
pub proof fn lemma_flat_decode(d: int, y: int, x: int, h: int, w: int)
    requires
        0 <= d,
        0 <= y < h,
        0 <= x < w,
    ensures
        flat_d((d * h + y) * w + x, h, w) == d,
        flat_y((d * h + y) * w + x, h, w) == y,
        flat_x((d * h + y) * w + x, h, w) == x,
{
    let i = (d * h + y) * w + x;
    assert((d * h + y) * w + x == d * (h * w) + (y * w + x)) by (nonlinear_arith);
    assert(0 <= y * w + x < h * w) by (nonlinear_arith)
        requires
            0 <= y < h,
            0 <= x < w,
    ;
    vstd::arithmetic::div_mod::lemma_fundamental_div_mod_converse(
        i,
        h * w,
        d,
        y * w + x,
    );
    vstd::arithmetic::div_mod::lemma_fundamental_div_mod_converse(y * w + x, w, y, x);
    assert(i == (d * h + y) * w + x);
    vstd::arithmetic::div_mod::lemma_fundamental_div_mod_converse_mod(i, w, d * h + y, x);
}

/// Every row-major position inside a grid decodes to in-bounds
/// coordinates.
pub proof fn lemma_flat_in_range(i: int, d: int, h: int, w: int)
    requires
        0 <= i < d * h * w,
        0 <= d,
        0 <= h,
        0 <= w,
    ensures
        0 <= flat_d(i, h, w) < d,
        0 <= flat_y(i, h, w) < h,
        0 <= flat_x(i, h, w) < w,
{
    assert(d > 0 && h > 0 && w > 0 && h * w > 0 && i < (h * w) * d && d * h * w == (h * w) * d)
        by (nonlinear_arith)
        requires
            0 <= i < d * h * w,
            0 <= d,
            0 <= h,
            0 <= w,
    ;
    vstd::arithmetic::div_mod::lemma_div_pos_is_pos(i, h * w);
    vstd::arithmetic::div_mod::lemma_multiply_divide_lt(i, h * w, d);
    vstd::arithmetic::div_mod::lemma_mod_division_less_than_divisor(i, h * w);
    let m = i % (h * w);
    assert(m < w * h) by (nonlinear_arith)
        requires
            m < h * w,
    ;
    vstd::arithmetic::div_mod::lemma_div_pos_is_pos(m, w);
    vstd::arithmetic::div_mod::lemma_multiply_divide_lt(m, w, h);
    vstd::arithmetic::div_mod::lemma_mod_division_less_than_divisor(i, w);
}

/// The cell a per-coordinate grid holds at a row-major position.
pub proof fn lemma_grid_at(d: int, h: int, w: int, f: spec_fn(int, int, int) -> int, dd: int, y: int, x: int)
    requires
        0 <= dd < d,
        0 <= y < h,
        0 <= x < w,
    ensures
        0 <= (dd * h + y) * w + x < d * h * w,
        grid_vals(d, h, w, f)[(dd * h + y) * w + x] == f(dd, y, x),
{
    lemma_flat_decode(dd, y, x, h, w);
    assert(0 <= (dd * h + y) * w + x < d * h * w) by (nonlinear_arith)
        requires
            0 <= dd < d,
            0 <= y < h,
            0 <= x < w,
    ;
}

impl Tensor3 {
    /// Shape agreement: the flat data holds exactly one value per cell.
    pub open spec fn wf(self) -> bool {
        self.data@.len() == self.depth * self.height * self.width
    }

    /// The values as mathematical integers, in row-major order.
    pub open spec fn vals(self) -> Seq<int> {
        self.data@.map_values(|x: i128| x as int)
    }

    /// Row-major position of a cell.
    pub open spec fn idx(self, d: int, y: int, x: int) -> int {
        (d * self.height + y) * self.width + x
    }

    /// Whether a cell index names a cell of this shape.
    pub open spec fn in_bounds(self, d: int, y: int, x: int) -> bool {
        0 <= d < self.depth && 0 <= y < self.height && 0 <= x < self.width
    }

    /// The value of one cell.
    pub open spec fn at(self, d: int, y: int, x: int) -> int {
        self.vals()[self.idx(d, y, x)]
    }

    /// Whether every value lies within `[-b, b]`.
    pub open spec fn bounded(self, b: int) -> bool {
        seq_bounded(self.vals(), b)
    }

    /// A cell's row-major position lies inside the flat data.
    pub proof fn lemma_idx_in_range(self, d: int, y: int, x: int)
        requires
            self.wf(),
            self.in_bounds(d, y, x),
        ensures
            0 <= self.idx(d, y, x) < self.data@.len(),
    {
        assert(0 <= (d * self.height + y) * self.width + x < self.depth * self.height
            * self.width) by (nonlinear_arith)
            requires
                0 <= d < self.depth,
                0 <= y < self.height,
                0 <= x < self.width,
        ;
    }

    /// Shape-checked construction from flat data: rejected exactly when
    /// the data's length disagrees with the declared dimensions.
    pub fn build(depth: usize, height: usize, width: usize, data: Vec<i128>) -> (res: Result<
        Tensor3,
        CircuitError,
    >)
        ensures
            res == if data@.len() == depth * height * width {
                Ok::<Tensor3, CircuitError>(Tensor3 { depth, height, width, data })
            } else {
                Err::<Tensor3, CircuitError>(CircuitError::ShapeMismatch)
            },
            res is Ok ==> res.unwrap().wf(),
    {
        let len = data.len();
        if depth == 0 || height == 0 || width == 0 {
            proof {
                assert(depth * height * width == 0) by (nonlinear_arith)
                    requires
                        depth == 0 || height == 0 || width == 0,
                ;
            }
            return if len == 0 {
                Ok(Tensor3 { depth, height, width, data })
            } else {
                Err(CircuitError::ShapeMismatch)
            };
        }
        match depth.checked_mul(height) {
            Some(dh) => match dh.checked_mul(width) {
                Some(n) if n == len => Ok(Tensor3 { depth, height, width, data }),
                _ => Err(CircuitError::ShapeMismatch),
            },
            None => {
                proof {
                    assert(depth * height * width >= depth * height) by (nonlinear_arith)
                        requires
                            width >= 1,
                            depth >= 0,
                            height >= 0,
                    ;
                }
                Err(CircuitError::ShapeMismatch)
            },
        }
    }

    /// Reads one cell.
    pub fn get(&self, d: usize, y: usize, x: usize) -> (r: i128)
        requires
            self.wf(),
            self.in_bounds(d as int, y as int, x as int),
        ensures
            r == self.at(d as int, y as int, x as int),
    {
        proof {
            lemma_vec_len_bound(&self.data);
            self.lemma_idx_in_range(d as int, y as int, x as int);
            assert(d * self.height + y <= (d * self.height + y) * self.width + x)
                by (nonlinear_arith)
                requires
                    0 <= d,
                    0 <= y,
                    0 <= x < self.width,
                    0 <= self.height,
            ;
        }
        self.data[(d * self.height + y) * self.width + x]
    }
}

impl Tensor4 {
    /// Shape agreement: the flat data holds exactly one value per cell.
    pub open spec fn wf(self) -> bool {
        self.data@.len() == self.out_depth * self.ker_height * self.ker_width * self.in_depth
    }

    /// The values as mathematical integers, in row-major order.
    pub open spec fn vals(self) -> Seq<int> {
        self.data@.map_values(|x: i128| x as int)
    }

    /// Row-major position of a kernel entry.
    pub open spec fn idx(self, od: int, ky: int, kx: int, id: int) -> int {
        ((od * self.ker_height + ky) * self.ker_width + kx) * self.in_depth + id
    }

    /// Whether an index names an entry of this shape.
    pub open spec fn in_bounds(self, od: int, ky: int, kx: int, id: int) -> bool {
        0 <= od < self.out_depth && 0 <= ky < self.ker_height && 0 <= kx < self.ker_width && 0 <= id
            < self.in_depth
    }

    /// The value of one kernel entry.
    pub open spec fn at(self, od: int, ky: int, kx: int, id: int) -> int {
        self.vals()[self.idx(od, ky, kx, id)]
    }

    /// Whether every value lies within `[-b, b]`.
    pub open spec fn bounded(self, b: int) -> bool {
        seq_bounded(self.vals(), b)
    }

    /// An entry's row-major position lies inside the flat data.
    pub proof fn lemma_idx_in_range(self, od: int, ky: int, kx: int, id: int)
        requires
            self.wf(),
            self.in_bounds(od, ky, kx, id),
        ensures
            0 <= self.idx(od, ky, kx, id) < self.data@.len(),
    {
        assert(0 <= ((od * self.ker_height + ky) * self.ker_width + kx) * self.in_depth + id
            < self.out_depth * self.ker_height * self.ker_width * self.in_depth)
            by (nonlinear_arith)
            requires
                0 <= od < self.out_depth,
                0 <= ky < self.ker_height,
                0 <= kx < self.ker_width,
                0 <= id < self.in_depth,
        ;
    }

    /// Shape-checked construction from flat data.
    pub fn build(
        out_depth: usize,
        ker_height: usize,
        ker_width: usize,
        in_depth: usize,
        data: Vec<i128>,
    ) -> (res: Result<Tensor4, CircuitError>)
        ensures
            res == if data@.len() == out_depth * ker_height * ker_width * in_depth {
                Ok::<Tensor4, CircuitError>(
                    Tensor4 { out_depth, ker_height, ker_width, in_depth, data },
                )
            } else {
                Err::<Tensor4, CircuitError>(CircuitError::ShapeMismatch)
            },
            res is Ok ==> res.unwrap().wf(),
    {
        let len = data.len();
        if out_depth == 0 || ker_height == 0 || ker_width == 0 || in_depth == 0 {
            proof {
                assert(out_depth * ker_height * ker_width * in_depth == 0) by (nonlinear_arith)
                    requires
                        out_depth == 0 || ker_height == 0 || ker_width == 0 || in_depth == 0,
                ;
            }
            return if len == 0 {
                Ok(Tensor4 { out_depth, ker_height, ker_width, in_depth, data })
            } else {
                Err(CircuitError::ShapeMismatch)
            };
        }
        match out_depth.checked_mul(ker_height) {
            Some(a) => match a.checked_mul(ker_width) {
                Some(b) => match b.checked_mul(in_depth) {
                    Some(n) if n == len => Ok(
                        Tensor4 { out_depth, ker_height, ker_width, in_depth, data },
                    ),
                    _ => Err(CircuitError::ShapeMismatch),
                },
                None => {
                    proof {
                        assert(out_depth * ker_height * ker_width * in_depth >= out_depth
                            * ker_height * ker_width) by (nonlinear_arith)
                            requires
                                in_depth >= 1,
                                out_depth >= 0,
                                ker_height >= 0,
                                ker_width >= 0,
                        ;
                    }
                    Err(CircuitError::ShapeMismatch)
                },
            },
            None => {
                proof {
                    assert(out_depth * ker_height * ker_width * in_depth >= out_depth * ker_height)
                        by (nonlinear_arith)
                        requires
                            in_depth >= 1,
                            ker_width >= 1,
                            out_depth >= 0,
                            ker_height >= 0,
                    ;
                }
                Err(CircuitError::ShapeMismatch)
            },
        }
    }

    /// Reads one kernel entry.
    pub fn get(&self, od: usize, ky: usize, kx: usize, id: usize) -> (r: i128)
        requires
            self.wf(),
            self.in_bounds(od as int, ky as int, kx as int, id as int),
        ensures
            r == self.at(od as int, ky as int, kx as int, id as int),
    {
        proof {
            lemma_vec_len_bound(&self.data);
            self.lemma_idx_in_range(od as int, ky as int, kx as int, id as int);
            assert((od * self.ker_height + ky) * self.ker_width + kx <= ((od * self.ker_height
                + ky) * self.ker_width + kx) * self.in_depth + id) by (nonlinear_arith)
                requires
                    0 <= od,
                    0 <= ky,
                    0 <= kx < self.ker_width,
                    0 <= id < self.in_depth,
                    0 <= self.ker_height,
            ;
            assert(od * self.ker_height + ky <= (od * self.ker_height + ky) * self.ker_width + kx)
                by (nonlinear_arith)
                requires
                    0 <= od,
                    0 <= ky,
                    0 <= kx < self.ker_width,
                    0 <= self.ker_height,
            ;
        }
        self.data[((od * self.ker_height + ky) * self.ker_width + kx) * self.in_depth + id]
    }
}

impl Matrix {
    /// Shape agreement: the flat data holds exactly one value per entry.
    pub open spec fn wf(self) -> bool {
        self.data@.len() == self.rows * self.cols
    }

    /// The values as mathematical integers, in row-major order.
    pub open spec fn vals(self) -> Seq<int> {
        self.data@.map_values(|x: i128| x as int)
    }

    /// Row-major position of an entry.
    pub open spec fn idx(self, r: int, c: int) -> int {
        r * self.cols + c
    }

    /// Whether an index names an entry of this shape.
    pub open spec fn in_bounds(self, r: int, c: int) -> bool {
        0 <= r < self.rows && 0 <= c < self.cols
    }

    /// The value of one entry.
    pub open spec fn at(self, r: int, c: int) -> int {
        self.vals()[self.idx(r, c)]
    }

    /// Whether every value lies within `[-b, b]`.
    pub open spec fn bounded(self, b: int) -> bool {
        seq_bounded(self.vals(), b)
    }

    /// An entry's row-major position lies inside the flat data.
    pub proof fn lemma_idx_in_range(self, r: int, c: int)
        requires
            self.wf(),
            self.in_bounds(r, c),
        ensures
            0 <= self.idx(r, c) < self.data@.len(),
    {
        assert(0 <= r * self.cols + c < self.rows * self.cols) by (nonlinear_arith)
            requires
                0 <= r < self.rows,
                0 <= c < self.cols,
        ;
    }

    /// Shape-checked construction from flat data.
    pub fn build(rows: usize, cols: usize, data: Vec<i128>) -> (res: Result<Matrix, CircuitError>)
        ensures
            res == if data@.len() == rows * cols {
                Ok::<Matrix, CircuitError>(Matrix { rows, cols, data })
            } else {
                Err::<Matrix, CircuitError>(CircuitError::ShapeMismatch)
            },
            res is Ok ==> res.unwrap().wf(),
    {
        let len = data.len();
        let cells = rows.checked_mul(cols);
        match cells {
            Some(n) if n == len => Ok(Matrix { rows, cols, data }),
            _ => Err(CircuitError::ShapeMismatch),
        }
    }

    /// Reads one entry.
    pub fn get(&self, r: usize, c: usize) -> (v: i128)
        requires
            self.wf(),
            self.in_bounds(r as int, c as int),
        ensures
            v == self.at(r as int, c as int),
    {
        proof {
            lemma_vec_len_bound(&self.data);
            self.lemma_idx_in_range(r as int, c as int);
        }
        self.data[r * self.cols + c]
    }
}

} // verus!

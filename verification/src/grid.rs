//! Shape and cell indexing of the uniform, origin-centred interface grid.
//!
//! Array axis 0 indexes `x` (length `nx`) and axis 1 indexes `y` (length
//! `ny`). The grid is centred so that the midpoint of each index range maps
//! to the physical origin. Flattened fields use row-major order, the cell
//! `(i, j)` sitting at `k = i * ny + j`.

use vstd::prelude::*;
use vstd::arithmetic::div_mod::{
    lemma_div_multiples_vanish_fancy, lemma_fundamental_div_mod, lemma_mod_bound,
    lemma_mod_multiples_vanish, lemma_multiply_divide_lt, lemma_small_mod,
};
use vstd::arithmetic::mul::{lemma_mul_inequality, lemma_mul_strictly_positive};

verus! {

/// Twice the centred coordinate of index `i` on an axis of `n` points, in
/// units of the spacing: the coordinate is `(i - (n - 1) / 2) d`, that is
/// `half_steps(i, n) * d / 2`.
pub open spec fn half_steps_spec(i: int, n: int) -> int {
    2 * i - (n - 1)
}

/// The row-major cell `(k / ny, k % ny)` of a flat index `k`.
pub open spec fn cell_spec(ny: int, k: int) -> (int, int) {
    (k / ny, k % ny)
}

/// The signed cell offset `cell(k) - cell(l)` between two flat indices.
pub open spec fn cell_offset_spec(ny: int, k: int, l: int) -> (int, int) {
    (cell_spec(ny, k).0 - cell_spec(ny, l).0, cell_spec(ny, k).1 - cell_spec(ny, l).1)
}

/// The point counts `(nx, ny)` of a uniform interface grid; both non-zero.
#[derive(Debug, Clone, Copy, PartialEq, Eq)]
pub struct GridShape {
    nx: usize,
    ny: usize,
}

impl View for GridShape {
    type V = (nat, nat);

    closed spec fn view(&self) -> (nat, nat) {
        (self.nx as nat, self.ny as nat)
    }
}

impl GridShape {
    #[verifier::type_invariant]
    spec fn inv(self) -> bool {
        self.nx > 0 && self.ny > 0
    }

    /// A grid of `nx * ny` points.
    pub fn new(nx: usize, ny: usize) -> (shape: Self)
        requires
            nx > 0,
            ny > 0,
        ensures
            shape@ == (nx as nat, ny as nat),
    {
        GridShape { nx, ny }
    }

    /// Number of grid points along `x`; never zero.
    pub fn nx(&self) -> (n: usize)
        ensures
            n == self@.0,
            n > 0,
    {
        proof {
            use_type_invariant(self);
        }
        self.nx
    }

    /// Number of grid points along `y`; never zero.
    pub fn ny(&self) -> (n: usize)
        ensures
            n == self@.1,
            n > 0,
    {
        proof {
            use_type_invariant(self);
        }
        self.ny
    }

    /// Grid shape as `(nx, ny)`.
    pub fn dims(&self) -> (d: (usize, usize))
        ensures
            d.0 == self@.0,
            d.1 == self@.1,
            d.0 > 0,
            d.1 > 0,
    {
        proof {
            use_type_invariant(self);
        }
        (self.nx, self.ny)
    }

    /// Total number of grid points, `nx * ny`.
    pub fn len(&self) -> (n: usize)
        requires
            self@.0 * self@.1 <= usize::MAX,
        ensures
            n == self@.0 * self@.1,
            n > 0,
    {
        proof {
            use_type_invariant(self);
            lemma_mul_strictly_positive(self.nx as int, self.ny as int);
        }
        self.nx * self.ny
    }

    /// Always `false`: a grid has at least one point.
    pub fn is_empty(&self) -> (empty: bool)
        ensures
            empty == (self@.0 * self@.1 == 0),
            !empty,
    {
        proof {
            use_type_invariant(self);
            lemma_mul_strictly_positive(self.nx as int, self.ny as int);
        }
        false
    }

    /// Twice the centred `x` coordinate of index `i`, in units of `dx`.
    ///
    /// The physical coordinate is `x_half_steps(i) * dx / 2`, which places the
    /// midpoint of the index range at the origin.
    pub fn x_half_steps(&self, i: usize) -> (h: isize)
        requires
            i <= isize::MAX / 2,
            self@.0 <= isize::MAX / 2,
        ensures
            h == half_steps_spec(i as int, self@.0 as int),
    {
        2 * (i as isize) - (self.nx as isize - 1)
    }

    /// Twice the centred `y` coordinate of index `j`, in units of `dy`.
    pub fn y_half_steps(&self, j: usize) -> (h: isize)
        requires
            j <= isize::MAX / 2,
            self@.1 <= isize::MAX / 2,
        ensures
            h == half_steps_spec(j as int, self@.1 as int),
    {
        2 * (j as isize) - (self.ny as isize - 1)
    }

    /// The row-major cell `(i, j)` of a flat index `k = i * ny + j`.
    pub fn cell(&self, k: usize) -> (c: (usize, usize))
        requires
            k < self@.0 * self@.1,
        ensures
            (c.0 as int, c.1 as int) == cell_spec(self@.1 as int, k as int),
            c.0 < self@.0,
            c.1 < self@.1,
            k == c.0 * self@.1 + c.1,
    {
        proof {
            use_type_invariant(self);
            lemma_multiply_divide_lt(k as int, self.ny as int, self.nx as int);
            lemma_fundamental_div_mod(k as int, self.ny as int);
            lemma_mod_bound(k as int, self.ny as int);
            assert(self.ny * self.nx == self.nx * self.ny) by (nonlinear_arith);
        }
        (k / self.ny, k % self.ny)
    }

    /// The signed cell offset `cell(k) - cell(l)` between two flat indices.
    ///
    /// This is the offset at which the translation-invariant influence kernel
    /// couples the two cells.
    pub fn cell_offset(&self, k: usize, l: usize) -> (d: (isize, isize))
        requires
            k < self@.0 * self@.1,
            l < self@.0 * self@.1,
            self@.0 * self@.1 <= isize::MAX,
        ensures
            (d.0 as int, d.1 as int) == cell_offset_spec(self@.1 as int, k as int, l as int),
            d.0 == k as int / self@.1 as int - l as int / self@.1 as int,
            d.1 == k as int % self@.1 as int - l as int % self@.1 as int,
    {
        let (ik, jk) = self.cell(k);
        let (il, jl) = self.cell(l);
        (ik as isize - il as isize, jk as isize - jl as isize)
    }
}

/// Centred coordinates are symmetric about the origin.
///
/// On an axis of `n` points, index `i` and its mirror `n - 1 - i` sit at
/// opposite coordinates, neighbouring indices are one spacing apart, every
/// index lies within half the axis span of the origin, and for an odd `n` the
/// middle index sits exactly at the origin.
pub proof fn lemma_centred_coordinates_symmetric(n: int, i: int)
    requires
        n > 0,
        0 <= i < n,
    ensures
        half_steps_spec(i, n) + half_steps_spec(n - 1 - i, n) == 0,
        half_steps_spec(i + 1, n) == half_steps_spec(i, n) + 2,
        -(n - 1) <= half_steps_spec(i, n) <= n - 1,
        n % 2 == 1 ==> half_steps_spec((n - 1) / 2, n) == 0,
{
}

/// Row-major flattening is a bijection between the cells of an `nx * ny` grid
/// and the flat indices `0..nx * ny`: the cell `(i, j)` sits at
/// `k = i * ny + j`, which lies in range and decodes back to `(i, j)`.
pub proof fn lemma_row_major_round_trip(nx: int, ny: int, i: int, j: int)
    requires
        nx > 0,
        ny > 0,
        0 <= i < nx,
        0 <= j < ny,
    ensures
        0 <= i * ny + j < nx * ny,
        cell_spec(ny, i * ny + j) == (i, j),
{
    lemma_mul_inequality(i, nx - 1, ny);
    assert((nx - 1) * ny == nx * ny - ny) by (nonlinear_arith);
    assert(i * ny >= 0) by (nonlinear_arith)
        requires
            i >= 0,
            ny > 0,
    ;
    assert(ny * i == i * ny) by (nonlinear_arith);
    lemma_div_multiples_vanish_fancy(i, j, ny);
    lemma_mod_multiples_vanish(i, j, ny);
    lemma_small_mod(j as nat, ny as nat);
}

/// The cell offset between two flat indices is the difference of the cells
/// they flatten: for cells `(i1, j1)` and `(i2, j2)` of an `nx * ny` grid, the
/// flat indices `i1 * ny + j1` and `i2 * ny + j2` are offset by exactly
/// `(i1 - i2, j1 - j2)`, whether or not the two cells share a row.
pub proof fn lemma_cell_offset_of_cells(nx: int, ny: int, i1: int, j1: int, i2: int, j2: int)
    requires
        nx > 0,
        ny > 0,
        0 <= i1 < nx,
        0 <= j1 < ny,
        0 <= i2 < nx,
        0 <= j2 < ny,
    ensures
        cell_offset_spec(ny, i1 * ny + j1, i2 * ny + j2) == (i1 - i2, j1 - j2),
{
    lemma_row_major_round_trip(nx, ny, i1, j1);
    lemma_row_major_round_trip(nx, ny, i2, j2);
}

/// The cell offset is antisymmetric and vanishes on the diagonal: cell `k`
/// sees cell `l` at the opposite offset to the one at which `l` sees `k`.
/// With a kernel that is even in its offset this makes the dense influence
/// matrix symmetric.
pub proof fn lemma_cell_offset_antisymmetric(ny: int, k: int, l: int)
    ensures
        cell_offset_spec(ny, k, l).0 == -cell_offset_spec(ny, l, k).0,
        cell_offset_spec(ny, k, l).1 == -cell_offset_spec(ny, l, k).1,
        cell_offset_spec(ny, k, k) == (0int, 0int),
{
}

} // verus!

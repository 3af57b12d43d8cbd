//! A resizable row-major grid of cells with derived draw-space positions.
//!
//! The grid covers a viewport: `stride` columns and `rows` rows, one cell
//! every `spacing` pixels. Cells are stored in one flat vector in row-major
//! order; the draw-space position of a cell is never stored but derived from
//! its index, so resizing leaves no stale position to maintain. Resizing
//! rebuilds the whole grid from a fill value, discarding all previous cell
//! state, and a whole-grid `update` is the only way cell values change.

use vstd::prelude::*;
use vstd::arithmetic::div_mod::{
    lemma_div_is_ordered, lemma_div_multiples_vanish, lemma_div_pos_is_pos,
    lemma_fundamental_div_mod, lemma_mod_division_less_than_divisor, lemma_multiply_divide_lt,
};
use vstd::arithmetic::mul::{
    lemma_mul_by_zero_is_zero, lemma_mul_equality_converse, lemma_mul_inequality,
    lemma_mul_is_commutative,
};

verus! {

/// Draw-space position of the cell at flat index `i` in a grid with the
/// given column count and pixel spacing: the column scaled by the spacing,
/// and the row scaled by the spacing.
pub open spec fn spec_draw_pos(i: int, stride: int, spacing: int) -> (int, int) {
    ((i % stride) * spacing, (i / stride) * spacing)
}

/// A row-major grid of cells, `stride` columns wide, one cell every
/// `spacing` pixels of the viewport.
pub struct Grid<C> {
    cells: Vec<C>,
    stride: usize,
    rows: usize,
    spacing: usize,
}

impl<C> Grid<C> {
    /// Number of columns.
    pub closed spec fn spec_stride(&self) -> usize {
        self.stride
    }

    /// Number of rows.
    pub closed spec fn spec_rows(&self) -> usize {
        self.rows
    }

    /// Pixel distance between neighbouring cells.
    pub closed spec fn spec_spacing(&self) -> usize {
        self.spacing
    }

    /// The cell values, in row-major order.
    pub closed spec fn spec_cells(&self) -> Seq<C> {
        self.cells@
    }

    /// Every grid reachable through this interface satisfies this shape:
    /// the flat storage holds exactly `stride * rows` cells, the spacing is
    /// positive, and every derived draw-space coordinate fits in a `usize`.
    pub open spec fn well_formed(&self) -> bool {
        &&& self.spec_spacing() >= 1
        &&& self.spec_cells().len() == self.spec_stride() * self.spec_rows()
        &&& self.spec_stride() * self.spec_spacing() <= usize::MAX
        &&& self.spec_rows() * self.spec_spacing() <= usize::MAX
    }

    /// Draw-space position of the cell at flat index `i`, as the exact
    /// `usize` pair handed to cell visitors.
    pub open spec fn spec_position(&self, i: int) -> (usize, usize) {
        (
            ((i % (self.spec_stride() as int)) * (self.spec_spacing() as int)) as usize,
            ((i / (self.spec_stride() as int)) * (self.spec_spacing() as int)) as usize,
        )
    }

    /// An empty grid with the given pixel spacing; it holds no cells until
    /// the first `resize`.
    pub fn new(spacing: usize) -> (g: Grid<C>)
        requires
            spacing >= 1,
        ensures
            g.well_formed(),
            g.spec_spacing() == spacing,
            g.spec_stride() == 0,
            g.spec_rows() == 0,
            g.spec_cells().len() == 0,
    {
        Grid { cells: Vec::new(), stride: 0, rows: 0, spacing }
    }

    /// Number of cells.
    pub fn len(&self) -> (n: usize)
        ensures
            n == self.spec_cells().len(),
    {
        self.cells.len()
    }

    /// Number of columns.
    pub fn stride(&self) -> (s: usize)
        ensures
            s == self.spec_stride(),
    {
        self.stride
    }

    /// Number of rows.
    pub fn rows(&self) -> (r: usize)
        ensures
            r == self.spec_rows(),
    {
        self.rows
    }

    /// Pixel distance between neighbouring cells.
    pub fn spacing(&self) -> (s: usize)
        ensures
            s == self.spec_spacing(),
    {
        self.spacing
    }

    /// Read access to the cell at flat index `i`.
    pub fn get(&self, i: usize) -> (c: &C)
        requires
            i < self.spec_cells().len(),
        ensures
            *c == self.spec_cells()[i as int],
    {
        &self.cells[i]
    }

    /// Fit the grid to a viewport: one column per `spacing` pixels of width,
    /// one row per `spacing` pixels of height, every cell reset to `fill`.
    /// A viewport narrower or shorter than the spacing degenerates to an
    /// empty grid. All previous cell state is discarded.
    pub fn resize(&mut self, width: usize, height: usize, fill: C) where C: Copy
        requires
            old(self).well_formed(),
            (width as int / old(self).spec_spacing() as int) * (height as int
                / old(self).spec_spacing() as int) <= usize::MAX,
        ensures
            final(self).well_formed(),
            final(self).spec_spacing() == old(self).spec_spacing(),
            final(self).spec_stride() == width as int / old(self).spec_spacing() as int,
            final(self).spec_rows() == height as int / old(self).spec_spacing() as int,
            final(self).spec_cells().len() == final(self).spec_stride() * final(self).spec_rows(),
            forall|k: int|
                0 <= k < final(self).spec_cells().len() ==> final(self).spec_cells()[k] == fill,
    {
        let stride: usize = width / self.spacing;
        let rows: usize = height / self.spacing;
        proof {
            lemma_quotient_times_divisor_le(width as int, self.spec_spacing() as int);
            lemma_quotient_times_divisor_le(height as int, self.spec_spacing() as int);
        }
        let count: usize = stride * rows;
        let mut fresh: Vec<C> = Vec::new();
        let mut i: usize = 0;
        while i < count
            invariant
                i <= count,
                fresh@.len() == i,
                forall|k: int| 0 <= k < i ==> fresh@[k] == fill,
            decreases count - i,
        {
            fresh.push(fill);
            i = i + 1;
        }
        self.stride = stride;
        self.rows = rows;
        self.cells = fresh;
    }

    /// Draw-space position of the cell at flat index `i`: the cell's column
    /// and row, each scaled by the pixel spacing.
    pub fn position(&self, i: usize) -> (p: (usize, usize))
        requires
            self.well_formed(),
            i < self.spec_cells().len(),
        ensures
            p == self.spec_position(i as int),
            p.0 == spec_draw_pos(i as int, self.spec_stride() as int,
                self.spec_spacing() as int).0,
            p.1 == spec_draw_pos(i as int, self.spec_stride() as int,
                self.spec_spacing() as int).1,
    {
        proof {
            lemma_position_in_range(self.spec_stride() as int, self.spec_rows() as int,
                self.spec_spacing() as int, i as int);
        }
        let x: usize = i % self.stride;
        let y: usize = i / self.stride;
        (x * self.spacing, y * self.spacing)
    }

    /// Recompute every cell as `f` of its draw-space position, in row-major
    /// index order. This is the sole mutation path for cell contents: no
    /// partial update exists, and the grid's shape is unchanged.
    pub fn update<F: Fn(usize, usize) -> C>(&mut self, f: F)
        requires
            old(self).well_formed(),
            forall|k: int|
                0 <= k < old(self).spec_cells().len() ==> call_requires(
                    f,
                    #[trigger] old(self).spec_position(k),
                ),
        ensures
            final(self).well_formed(),
            final(self).spec_stride() == old(self).spec_stride(),
            final(self).spec_rows() == old(self).spec_rows(),
            final(self).spec_spacing() == old(self).spec_spacing(),
            final(self).spec_cells().len() == old(self).spec_cells().len(),
            forall|k: int|
                0 <= k < final(self).spec_cells().len() ==> call_ensures(
                    f,
                    old(self).spec_position(k),
                    #[trigger] final(self).spec_cells()[k],
                ),
    {
        let n: usize = self.cells.len();
        let mut fresh: Vec<C> = Vec::new();
        let mut i: usize = 0;
        while i < n
            invariant
                self.well_formed(),
                n == self.spec_cells().len(),
                forall|k: int|
                    0 <= k < n ==> call_requires(f, #[trigger] self.spec_position(k)),
                i <= n,
                fresh@.len() == i,
                forall|k: int|
                    0 <= k < i ==> call_ensures(f, self.spec_position(k), #[trigger] fresh@[k]),
            decreases n - i,
        {
            let p: (usize, usize) = self.position(i);
            let c: C = f(p.0, p.1);
            fresh.push(c);
            i = i + 1;
        }
        self.cells = fresh;
    }

    /// Law: within one well-formed grid, distinct cell indices are drawn at
    /// distinct draw-space positions.
    pub proof fn lemma_positions_injective(&self, i: int, j: int)
        requires
            self.well_formed(),
            0 <= i < self.spec_cells().len(),
            0 <= j < self.spec_cells().len(),
            i != j,
        ensures
            self.spec_position(i) != self.spec_position(j),
    {
        let stride = self.spec_stride() as int;
        let rows = self.spec_rows() as int;
        let spacing = self.spec_spacing() as int;
        lemma_position_in_range(stride, rows, spacing, i);
        lemma_position_in_range(stride, rows, spacing, j);
        lemma_draw_pos_injective(i, j, stride, spacing);
    }
}

/// Whether a viewport of the given pixel size, with one cell every
/// `spacing` pixels, yields a cell count that fits in a `usize` — the one
/// machine limit that `Grid::resize` asks its callers to respect.
pub fn cell_count_fits(width: usize, height: usize, spacing: usize) -> (r: bool)
    requires
        spacing >= 1,
    ensures
        r <==> (width as int / spacing as int) * (height as int / spacing as int) <= usize::MAX,
{
    let columns: usize = width / spacing;
    let rows: usize = height / spacing;
    if columns == 0 {
        proof {
            lemma_mul_by_zero_is_zero(height as int / spacing as int);
        }
        true
    } else {
        proof {
            let c = columns as int;
            let q = rows as int;
            let m = usize::MAX as int;
            lemma_quotient_times_divisor_le(m, c);
            if q <= m / c {
                lemma_mul_inequality(q, m / c, c);
                lemma_mul_is_commutative(q, c);
            }
            if c * q <= m {
                lemma_div_multiples_vanish(q, c);
                lemma_div_is_ordered(c * q, m, c);
            }
        }
        rows <= usize::MAX / columns
    }
}

/// Law: the flat index determines the draw-space position injectively —
/// distinct cells of one grid are drawn at distinct positions.
pub proof fn lemma_draw_pos_injective(i: int, j: int, stride: int, spacing: int)
    requires
        stride >= 1,
        spacing >= 1,
        0 <= i,
        0 <= j,
        i != j,
    ensures
        spec_draw_pos(i, stride, spacing) != spec_draw_pos(j, stride, spacing),
{
    if spec_draw_pos(i, stride, spacing) == spec_draw_pos(j, stride, spacing) {
        lemma_mul_is_commutative(i % stride, spacing);
        lemma_mul_is_commutative(j % stride, spacing);
        lemma_mul_is_commutative(i / stride, spacing);
        lemma_mul_is_commutative(j / stride, spacing);
        lemma_mul_equality_converse(spacing, i % stride, j % stride);
        lemma_mul_equality_converse(spacing, i / stride, j / stride);
        lemma_fundamental_div_mod(i, stride);
        lemma_fundamental_div_mod(j, stride);
        assert(false);
    }
}

/// The quotient of a division, multiplied back by the divisor, does not
/// exceed the dividend.
proof fn lemma_quotient_times_divisor_le(x: int, d: int)
    requires
        x >= 0,
        d >= 1,
    ensures
        (x / d) * d <= x,
        x / d >= 0,
{
    lemma_fundamental_div_mod(x, d);
    lemma_mod_division_less_than_divisor(x, d);
    lemma_mul_is_commutative(x / d, d);
    lemma_div_pos_is_pos(x, d);
}

/// In a well-formed grid every valid index yields in-range draw-space
/// coordinates: the column and row both exist, and each scaled coordinate
/// fits in a `usize`.
proof fn lemma_position_in_range(stride: int, rows: int, spacing: int, i: int)
    requires
        spacing >= 1,
        stride >= 0,
        rows >= 0,
        0 <= i < stride * rows,
        stride * spacing <= usize::MAX,
        rows * spacing <= usize::MAX,
    ensures
        stride >= 1,
        0 <= (i % stride) * spacing <= usize::MAX,
        0 <= (i / stride) * spacing <= usize::MAX,
{
    assert(stride >= 1) by (nonlinear_arith)
        requires
            stride >= 0,
            rows >= 0,
            0 <= i < stride * rows,
    ;
    lemma_mod_division_less_than_divisor(i, stride);
    lemma_mul_inequality(i % stride, stride, spacing);
    lemma_multiply_divide_lt(i, stride, rows);
    lemma_div_pos_is_pos(i, stride);
    lemma_mul_inequality(i / stride, rows, spacing);
    assert(0 <= (i % stride) * spacing) by (nonlinear_arith)
        requires
            0 <= i % stride,
            spacing >= 1,
    ;
    assert(0 <= (i / stride) * spacing) by (nonlinear_arith)
        requires
            0 <= i / stride,
            spacing >= 1,
    ;
}

} // verus!

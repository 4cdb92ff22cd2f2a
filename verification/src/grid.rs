//! The playing field: a fixed-extent rectangle of cells, each empty or
//! occupied by a locked block of some kind, stored row-major.

use vstd::prelude::*;
use crate::shape::{Kind, Pos};

verus! {

/// The largest accepted extent in either direction. It keeps every
/// coordinate computation and every row-major index inside the machine
/// integer ranges, whatever the platform's pointer width.
pub const MAX_EXTENT: i32 = 0x4000;

/// Whether a pair of dimensions is one the grid accepts.
pub open spec fn dims_ok(width: int, height: int) -> bool {
    0 < width <= MAX_EXTENT && 0 < height <= MAX_EXTENT
}

/// A fixed-size rectangular field of cells. `cells[row * width + col]` is the
/// cell in column `col` of row `row`; the vector never changes length.
pub struct Grid {
    pub width: i32,
    pub height: i32,
    pub cells: Vec<Option<Kind>>,
}

/// A row-major index stays inside the cell vector.
pub proof fn lemma_index_in_range(w: int, h: int, col: int, row: int)
    requires
        0 <= col < w,
        0 <= row < h,
    ensures
        0 <= row * w + col < h * w,
{
    vstd::arithmetic::mul::lemma_mul_inequality(0, row, w);
    vstd::arithmetic::mul::lemma_mul_basics(w);
    vstd::arithmetic::mul::lemma_mul_inequality(row + 1, h, w);
    assert((row + 1) * w == row * w + w) by (nonlinear_arith);
}

/// Under the accepted extent, every row-major index fits comfortably in a
/// 32-bit machine word.
pub proof fn lemma_index_fits(w: int, h: int, col: int, row: int)
    requires
        dims_ok(w, h),
        0 <= col < w,
        0 <= row < h,
    ensures
        0 <= row * w + col < h * w,
        h * w <= 0x1000_0000,
{
    lemma_index_in_range(w, h, col, row);
    assert(h * w <= 0x4000 * 0x4000) by (nonlinear_arith)
        requires 0 < w <= 0x4000, 0 < h <= 0x4000;
}

/// Distinct in-range positions get distinct row-major indices.
pub proof fn lemma_index_injective(w: int, c1: int, r1: int, c2: int, r2: int)
    requires
        0 <= c1 < w,
        0 <= c2 < w,
        0 <= r1,
        0 <= r2,
        r1 * w + c1 == r2 * w + c2,
    ensures
        c1 == c2 && r1 == r2,
{
    assert(c1 == c2 && r1 == r2) by (nonlinear_arith)
        requires 0 <= c1 < w, 0 <= c2 < w, 0 <= r1, 0 <= r2, r1 * w + c1 == r2 * w + c2;
}

impl Grid {
    /// The grid's internal consistency: accepted dimensions and one cell
    /// stored for every position of the extent.
    pub open spec fn wf(self) -> bool {
        dims_ok(self.width as int, self.height as int)
            && self.cells@.len() == self.height * self.width
    }

    /// Whether `(col, row)` lies fully inside the extent.
    pub open spec fn in_bounds(self, col: int, row: int) -> bool {
        0 <= col < self.width && 0 <= row < self.height
    }

    /// The cell at `(col, row)`, for an in-bounds position.
    pub open spec fn cell(self, col: int, row: int) -> Option<Kind> {
        self.cells@[row * self.width + col]
    }

    /// Builds an empty grid of the given extent.
    pub fn new(width: i32, height: i32) -> (g: Grid)
        requires
            dims_ok(width as int, height as int),
        ensures
            g.wf(),
            g.width == width,
            g.height == height,
            forall|col: int, row: int| g.in_bounds(col, row) ==> #[trigger] g.cell(col, row) is None,
    {
        proof {
            assert(height * width <= 0x4000 * 0x4000) by (nonlinear_arith)
                requires 0 < width <= 0x4000, 0 < height <= 0x4000;
        }
        let total: usize = (width as usize) * (height as usize);
        let mut cells: Vec<Option<Kind>> = Vec::new();
        let mut i: usize = 0;
        while i < total
            invariant
                i <= total,
                total == height * width,
                cells@.len() == i,
                forall|j: int| 0 <= j < i ==> cells@[j] is None,
            decreases total - i,
        {
            cells.push(None);
            i = i + 1;
        }
        let g = Grid { width, height, cells };
        proof {
            assert forall|col: int, row: int| g.in_bounds(col, row) implies g.cell(col, row) is None by {
                lemma_index_in_range(width as int, height as int, col, row);
            }
        }
        g
    }

    /// The locked block at `pos`, if any. The position must be pre-validated
    /// to lie inside the extent.
    pub fn occupant_at(&self, pos: Pos) -> (r: Option<Kind>)
        requires
            self.wf(),
            self.in_bounds(pos.col as int, pos.row as int),
        ensures
            r == self.cell(pos.col as int, pos.row as int),
    {
        proof {
            lemma_index_fits(self.width as int, self.height as int, pos.col as int, pos.row as int);
        }
        let idx: usize = (pos.row as usize) * (self.width as usize) + (pos.col as usize);
        self.cells[idx]
    }

    /// Whether `pos` is inside the side walls and above the floor. There is
    /// no lower bound on the row: a spawning piece may sit above the field.
    pub fn is_within_bounds(&self, pos: Pos) -> (r: bool)
        ensures
            r == (0 <= pos.col < self.width && pos.row < self.height),
    {
        0 <= pos.col && pos.col < self.width && pos.row < self.height
    }

    /// Marks the cell at `pos` occupied by a block of `kind`; every other
    /// cell keeps its value. The position must be inside the extent.
    pub fn lock(&mut self, pos: Pos, kind: Kind)
        requires
            old(self).wf(),
            old(self).in_bounds(pos.col as int, pos.row as int),
        ensures
            final(self).wf(),
            final(self).width == old(self).width,
            final(self).height == old(self).height,
            final(self).cell(pos.col as int, pos.row as int) == Some(kind),
            forall|col: int, row: int|
                final(self).in_bounds(col, row) && !(col == pos.col && row == pos.row)
                    ==> final(self).cell(col, row) == old(self).cell(col, row),
    {
        proof {
            lemma_index_fits(self.width as int, self.height as int, pos.col as int, pos.row as int);
        }
        let idx: usize = (pos.row as usize) * (self.width as usize) + (pos.col as usize);
        self.cells[idx] = Some(kind);
        proof {
            let w = self.width as int;
            assert forall|col: int, row: int|
                self.in_bounds(col, row) && !(col == pos.col && row == pos.row)
                    implies self.cell(col, row) == old(self).cell(col, row) by {
                lemma_index_in_range(w, self.height as int, col, row);
                if row * w + col == pos.row * w + pos.col {
                    lemma_index_injective(w, col, row, pos.col as int, pos.row as int);
                }
            }
        }
    }
}

} // verus!

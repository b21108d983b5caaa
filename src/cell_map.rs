use vstd::prelude::*;
use crate::element::Element;

verus! {

/// The full-screen cell buffer, stored row by row: the cell in column `x`
/// of row `y` sits at index `y * width + x`. An empty cell is `None`.
pub struct CellMap {
    pub width: usize,
    pub height: usize,
    pub cells: Vec<Option<Element>>,
}

/// Distinct cells of a row-major grid have distinct indices, and every
/// cell's index lies inside the grid.
pub proof fn lemma_grid_index(w: int, h: int, x1: int, y1: int, x2: int, y2: int)
    requires
        0 <= x1 < w,
        0 <= y1 < h,
        0 <= x2 < w,
        0 <= y2 < h,
    ensures
        0 <= y1 * w + x1 < w * h,
        (y1 * w + x1 == y2 * w + x2) ==> (x1 == x2 && y1 == y2),
{
    assert(0 <= y1 * w + x1 < w * h) by (nonlinear_arith)
        requires
            0 <= x1 < w,
            0 <= y1 < h,
    ;
    if y1 < y2 {
        assert(y1 * w + x1 < y2 * w + x2) by (nonlinear_arith)
            requires
                0 <= x1 < w,
                0 <= x2,
                y1 < y2,
        ;
    } else if y2 < y1 {
        assert(y2 * w + x2 < y1 * w + x1) by (nonlinear_arith)
            requires
                0 <= x2 < w,
                0 <= x1,
                y2 < y1,
        ;
    }
}

impl CellMap {
    /// The buffer holds exactly one cell per position.
    pub open spec fn wf(&self) -> bool {
        self.cells@.len() == self.width * self.height
    }

    pub open spec fn in_bounds(&self, x: int, y: int) -> bool {
        0 <= x < self.width && 0 <= y < self.height
    }

    /// The cell in column `x` of row `y`.
    pub open spec fn cell(&self, x: int, y: int) -> Option<Element> {
        self.cells@[y * self.width + x]
    }

    /// Every cell is empty.
    pub open spec fn is_clear(&self) -> bool {
        forall|i: int| 0 <= i < self.cells@.len() ==> #[trigger] self.cells@[i] is None
    }

    /// A buffer of `width` columns and `height` rows, all empty.
    pub fn new(width: usize, height: usize) -> (r: CellMap)
        requires
            width * height <= usize::MAX,
        ensures
            r.wf(),
            r.width == width,
            r.height == height,
            r.is_clear(),
    {
        let n: usize = width * height;
        CellMap { width, height, cells: Self::empty_cells(n) }
    }

    fn empty_cells(n: usize) -> (r: Vec<Option<Element>>)
        ensures
            r@.len() == n,
            forall|i: int| 0 <= i < n ==> #[trigger] r@[i] is None,
    {
        let mut cells: Vec<Option<Element>> = Vec::with_capacity(n);
        let mut i: usize = 0;
        while i < n
            invariant
                i <= n,
                cells@.len() == i,
                forall|j: int| 0 <= j < i ==> #[trigger] cells@[j] is None,
            decreases n - i,
        {
            cells.push(None);
            i = i + 1;
        }
        cells
    }

    /// Empties every cell; the size stays.
    pub fn reset(&mut self)
        requires
            old(self).wf(),
        ensures
            final(self).wf(),
            final(self).width == old(self).width,
            final(self).height == old(self).height,
            final(self).is_clear(),
    {
        let n: usize = self.cells.len();
        self.cells = Self::empty_cells(n);
    }

    /// Stores `element` in column `x` of row `y`, leaving every other cell as it was.
    pub fn set(&mut self, x: usize, y: usize, element: Element)
        requires
            old(self).wf(),
            old(self).in_bounds(x as int, y as int),
        ensures
            final(self).wf(),
            final(self).width == old(self).width,
            final(self).height == old(self).height,
            forall|cx: int, cy: int|
                #![trigger final(self).cell(cx, cy)]
                old(self).in_bounds(cx, cy) ==> final(self).cell(cx, cy) == if cx == x && cy == y {
                    Some(element)
                } else {
                    old(self).cell(cx, cy)
                },
    {
        let n: usize = self.cells.len();
        proof {
            lemma_grid_index(self.width as int, self.height as int, x as int, y as int, x as int, y as int);
            assert(0 <= y * self.width <= y * self.width + x < n) by (nonlinear_arith)
                requires
                    0 <= x,
                    0 <= y,
                    0 <= self.width,
                    y * self.width + x < self.width * self.height,
                    n == self.width * self.height,
            ;
        }
        let index: usize = y * self.width + x;
        self.cells.set(index, Some(element));
        proof {
            assert forall|cx: int, cy: int|
                #![trigger self.cell(cx, cy)]
                old(self).in_bounds(cx, cy) implies self.cell(cx, cy) == if cx == x && cy == y {
                    Some(element)
                } else {
                    old(self).cell(cx, cy)
                } by {
                lemma_grid_index(self.width as int, self.height as int, cx, cy, x as int, y as int);
            }
        }
    }
}

} // verus!

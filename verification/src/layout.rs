//! Grid layout engine: a pure mapping from (columns, rows, display working
//! area, window index) to the screen rectangle of that window's cell.
//!
//! Cells are assigned in row-major order (left to right, then top to bottom).
//! Cell sizes come from floor division of the display area by the grid
//! dimensions; remainder pixels are dropped, never redistributed.

use vstd::prelude::*;
use vstd::arithmetic::div_mod::{
    lemma_div_pos_is_pos, lemma_div_nonincreasing, lemma_fundamental_div_mod,
    lemma_mod_division_less_than_divisor, lemma_multiply_divide_lt,
};
use vstd::arithmetic::mul::lemma_mul_inequality;

verus! {

/// Rectangle representing position and size, in screen coordinates.
#[derive(Debug, Clone, Copy, PartialEq, Eq, Structural)]
pub struct Rect {
    pub x: i32,
    pub y: i32,
    pub width: i32,
    pub height: i32,
}

impl Rect {
    pub fn new(x: i32, y: i32, width: i32, height: i32) -> (r: Self)
        ensures
            r == (Rect { x, y, width, height }),
    {
        Self { x, y, width, height }
    }
}

/// One display's bounds as reported by the display resolver.
#[derive(Debug, Clone)]
pub struct BoundsInfo {
    pub x: i32,
    pub y: i32,
    pub width: i32,
    pub height: i32,
}

/// Display information: device identity, primary flag, full bounds and the
/// working area (the usable rectangle, excluding reserved OS regions).
#[derive(Debug, Clone)]
pub struct DisplayInfo {
    pub device_name: String,
    pub primary: bool,
    pub bounds: BoundsInfo,
    pub working_area: BoundsInfo,
}

/// The mathematical model of a grid layout: the grid dimensions and the
/// display working area they partition.
pub struct GridModel {
    pub cols: u32,
    pub rows: u32,
    pub display_area: Rect,
}

impl GridModel {
    /// Well-formedness: positive grid dimensions that fit in screen
    /// coordinates, and a display area of non-negative size whose far edges
    /// stay within coordinate range.
    pub open spec fn wf(self) -> bool {
        &&& 1 <= self.cols <= i32::MAX
        &&& 1 <= self.rows <= i32::MAX
        &&& self.cols * self.rows <= u32::MAX
        &&& 0 <= self.display_area.width
        &&& 0 <= self.display_area.height
        &&& self.display_area.x + self.display_area.width <= i32::MAX
        &&& self.display_area.y + self.display_area.height <= i32::MAX
    }

    /// Width of one cell: the display width divided evenly, remainder dropped.
    pub open spec fn cell_width(self) -> int {
        self.display_area.width as int / self.cols as int
    }

    /// Height of one cell: the display height divided evenly, remainder dropped.
    pub open spec fn cell_height(self) -> int {
        self.display_area.height as int / self.rows as int
    }

    /// The rectangle of the cell assigned to `index`, row-major: column is
    /// `index mod cols`, row is `index div cols`, and the cell origin is the
    /// display origin shifted by whole cells.
    pub open spec fn position(self, index: int) -> Rect {
        let col = index % (self.cols as int);
        let row = index / (self.cols as int);
        Rect {
            x: (self.display_area.x + col * self.cell_width()) as i32,
            y: (self.display_area.y + row * self.cell_height()) as i32,
            width: self.cell_width() as i32,
            height: self.cell_height() as i32,
        }
    }

    /// The ordered placement sequence: the i-th window receives the i-th
    /// cell in row-major order.
    pub open spec fn positions(self, count: int) -> Seq<Rect> {
        Seq::new(count as nat, |i: int| self.position(i))
    }
}

/// Grid layout calculator.
pub struct GridLayout {
    cols: u32,
    rows: u32,
    display_area: Rect,
}

impl View for GridLayout {
    type V = GridModel;

    closed spec fn view(&self) -> GridModel {
        GridModel { cols: self.cols, rows: self.rows, display_area: self.display_area }
    }
}

impl GridLayout {
    /// Create a new grid layout for the given display area.
    pub fn new(cols: u32, rows: u32, display_area: Rect) -> (layout: Self)
        requires
            (GridModel { cols, rows, display_area }).wf(),
        ensures
            layout@ == (GridModel { cols, rows, display_area }),
    {
        Self { cols, rows, display_area }
    }

    /// Calculate the rectangle for a window at the given grid position.
    /// Position is 0-indexed, starting from top-left.
    pub fn calculate_position(&self, index: usize) -> (r: Rect)
        requires
            self@.wf(),
            index < self@.cols * self@.rows,
        ensures
            r == self@.position(index as int),
            r.x == self@.display_area.x + (index as int % self@.cols as int) * self@.cell_width(),
            r.y == self@.display_area.y + (index as int / self@.cols as int) * self@.cell_height(),
            r.width == self@.cell_width(),
            r.height == self@.cell_height(),
    {
        proof {
            lemma_position_in_bounds(self@, index as int);
        }
        let col = (index as u32) % self.cols;
        let row = (index as u32) / self.cols;

        let cell_width = self.display_area.width / (self.cols as i32);
        let cell_height = self.display_area.height / (self.rows as i32);

        Rect {
            x: self.display_area.x + (col as i32) * cell_width,
            y: self.display_area.y + (row as i32) * cell_height,
            width: cell_width,
            height: cell_height,
        }
    }

    /// Calculate positions for all windows, in configured order.
    pub fn calculate_all_positions(&self, count: usize) -> (positions: Vec<Rect>)
        requires
            self@.wf(),
            count <= self@.cols * self@.rows,
        ensures
            positions@ == self@.positions(count as int),
            positions@.len() == count,
    {
        let mut positions: Vec<Rect> = Vec::new();
        let mut i: usize = 0;
        while i < count
            invariant
                self@.wf(),
                count <= self@.cols * self@.rows,
                i <= count,
                positions@ =~= Seq::new(i as nat, |j: int| self@.position(j)),
            decreases count - i,
        {
            let r = self.calculate_position(i);
            positions.push(r);
            i += 1;
        }
        proof {
            assert(positions@ =~= self@.positions(count as int));
        }
        positions
    }

    /// Get the maximum number of windows this grid can hold.
    pub fn max_windows(&self) -> (n: u32)
        requires
            self@.wf(),
        ensures
            n == self@.cols * self@.rows,
    {
        self.cols * self.rows
    }
}

/// Under a well-formed model, every cell of the grid lies inside the display
/// area, so the cell coordinates stay within screen-coordinate range.
pub proof fn lemma_position_in_bounds(m: GridModel, index: int)
    requires
        m.wf(),
        0 <= index < m.cols * m.rows,
    ensures
        0 <= m.cell_width() <= m.display_area.width,
        0 <= m.cell_height() <= m.display_area.height,
        0 <= index % (m.cols as int) < m.cols,
        0 <= index / (m.cols as int) < m.rows,
        m.display_area.x
            <= m.display_area.x + (index % (m.cols as int)) * m.cell_width()
            <= m.display_area.x + m.display_area.width - m.cell_width(),
        m.display_area.y
            <= m.display_area.y + (index / (m.cols as int)) * m.cell_height()
            <= m.display_area.y + m.display_area.height - m.cell_height(),
{
    let c = m.cols as int;
    let r = m.rows as int;
    let w = m.display_area.width as int;
    let h = m.display_area.height as int;
    let col = index % c;
    let row = index / c;

    lemma_div_pos_is_pos(w, c);
    lemma_div_nonincreasing(w, c);
    lemma_div_pos_is_pos(h, r);
    lemma_div_nonincreasing(h, r);

    lemma_mod_division_less_than_divisor(index, c);
    lemma_div_pos_is_pos(index, c);
    lemma_multiply_divide_lt(index, c, r);

    // col * cell_width <= (c - 1) * cell_width == c * cell_width - cell_width
    // and c * cell_width <= w, since w == c * (w / c) + w % c with w % c >= 0.
    lemma_mul_inequality(0, col, w / c);
    lemma_mul_inequality(col, c - 1, w / c);
    lemma_fundamental_div_mod(w, c);
    lemma_mod_division_less_than_divisor(w, c);
    assert((c - 1) * (w / c) == c * (w / c) - (w / c)) by (nonlinear_arith);

    lemma_mul_inequality(0, row, h / r);
    lemma_mul_inequality(row, r - 1, h / r);
    lemma_fundamental_div_mod(h, r);
    lemma_mod_division_less_than_divisor(h, r);
    assert((r - 1) * (h / r) == r * (h / r) - (h / r)) by (nonlinear_arith);
}

/// The i-th element of the full placement sequence is exactly the
/// single-cell computation at index i.
pub proof fn lemma_positions_index(m: GridModel, count: int, i: int)
    requires
        0 <= i < count,
    ensures
        m.positions(count)[i] == m.position(i),
{
}

/// Determinism of the layout: identical grid models and counts always yield
/// identical placement sequences, with no hidden state.
pub proof fn lemma_layout_deterministic(m: GridModel, r1: Seq<Rect>, r2: Seq<Rect>, count: int)
    requires
        r1 == m.positions(count),
        r2 == m.positions(count),
    ensures
        r1 == r2,
{
}

} // verus!

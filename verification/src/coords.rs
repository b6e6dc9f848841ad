//! Grid cells, and the conversions between grid space and pixel space.
//!
//! A cell is sixteen pixels wide and high, and has two pixel positions. Its
//! position proper is its corner, sixteen times its column and row: there the
//! anchor of a component stands. Its centre lies half a cell further on both
//! axes: there the dot of the grid is drawn, and a pointer belongs to the cell
//! whose centre is nearest. `to_widget_space` and `from_widget_space` go by
//! the corner, `to_canvas_space` and `from_canvas_space` by the centre.

use crate::geometry::Point;
use std::ops::AddAssign;
use vstd::prelude::*;
use vstd::std_specs::ops::AddSpecImpl;

verus! {

/// The width and height of a cell, in pixels.
pub const CELL_SIZE: i128 = 16;

/// The distance from a cell's corner to its centre, in pixels.
pub const HALF_CELL: i128 = 8;

/// A cell of the grid.
#[derive(Clone, Copy, Debug, PartialEq, Eq, Structural)]
pub struct Coords {
    pub x: isize,
    pub y: isize,
}

/// `n` pixels in cells, rounded to the nearest integer; a half rounds away
/// from zero.
pub open spec fn round_to_cell(n: int) -> int {
    if n >= 0 {
        (n + HALF_CELL) / (CELL_SIZE as int)
    } else {
        -((HALF_CELL - n) / (CELL_SIZE as int))
    }
}

/// The `isize` nearest to `n`.
pub open spec fn clamp_to_isize(n: int) -> isize {
    if n < isize::MIN {
        isize::MIN
    } else if n > isize::MAX {
        isize::MAX
    } else {
        n as isize
    }
}

/// `round_to_cell`, held to the range of `isize`.
fn nearest_cell(n: i128) -> (cell: isize)
    ensures
        cell == clamp_to_isize(round_to_cell(n as int)),
{
    let top: i128 = isize::MAX as i128;
    let bottom: i128 = isize::MIN as i128;
    if n >= 0 {
        if n >= top * CELL_SIZE + HALF_CELL {
            isize::MAX
        } else {
            ((n + HALF_CELL) / CELL_SIZE) as isize
        }
    } else {
        if n <= bottom * CELL_SIZE - HALF_CELL {
            isize::MIN
        } else {
            (-((HALF_CELL - n) / CELL_SIZE)) as isize
        }
    }
}

impl Coords {
    /// The cell in column `x` and row `y`.
    pub fn new(x: isize, y: isize) -> (c: Self)
        ensures
            c.x == x,
            c.y == y,
    {
        Coords { x, y }
    }

    pub open spec fn spec_from_widget_space(pos: Point) -> Coords {
        Coords {
            x: clamp_to_isize(round_to_cell(pos.x as int)),
            y: clamp_to_isize(round_to_cell(pos.y as int)),
        }
    }

    /// The cell whose corner is nearest to `pos`.
    ///
    /// Each axis is divided by the cell size and rounded, a half away from
    /// zero. A position beyond the last cell gives the last cell.
    #[verifier::when_used_as_spec(spec_from_widget_space)]
    pub fn from_widget_space(pos: Point) -> (c: Self)
        ensures
            c == Self::spec_from_widget_space(pos),
    {
        Coords { x: nearest_cell(pos.x), y: nearest_cell(pos.y) }
    }

    pub open spec fn spec_to_widget_space(&self) -> Point {
        Point { x: (self.x * CELL_SIZE) as i128, y: (self.y * CELL_SIZE) as i128 }
    }

    /// The pixel position of the cell: its corner, sixteen times its column
    /// and row.
    #[verifier::when_used_as_spec(spec_to_widget_space)]
    pub fn to_widget_space(&self) -> (p: Point)
        ensures
            p == self.spec_to_widget_space(),
            p.x == self.x * 16,
            p.y == self.y * 16,
    {
        Point { x: (self.x as i128) * CELL_SIZE, y: (self.y as i128) * CELL_SIZE }
    }

    pub open spec fn spec_from_canvas_space(pos: Point) -> Coords {
        Coords {
            x: clamp_to_isize(round_to_cell(pos.x - HALF_CELL)),
            y: clamp_to_isize(round_to_cell(pos.y - HALF_CELL)),
        }
    }

    /// The cell that a pointer at `pos` is on: the one whose centre is nearest
    /// to `pos`.
    ///
    /// Half a cell is taken off each axis before it is divided by the cell
    /// size and rounded, a half away from zero. A position beyond the last
    /// cell gives the last cell.
    #[verifier::when_used_as_spec(spec_from_canvas_space)]
    pub fn from_canvas_space(pos: Point) -> (c: Self)
        ensures
            c == Self::spec_from_canvas_space(pos),
    {
        let x = if pos.x < i128::MIN + HALF_CELL {
            isize::MIN
        } else {
            nearest_cell(pos.x - HALF_CELL)
        };
        let y = if pos.y < i128::MIN + HALF_CELL {
            isize::MIN
        } else {
            nearest_cell(pos.y - HALF_CELL)
        };
        Coords { x, y }
    }

    pub open spec fn spec_to_canvas_space(&self) -> Point {
        Point {
            x: (self.x * CELL_SIZE + HALF_CELL) as i128,
            y: (self.y * CELL_SIZE + HALF_CELL) as i128,
        }
    }

    /// The centre of the cell, half a cell past its corner on both axes.
    #[verifier::when_used_as_spec(spec_to_canvas_space)]
    pub fn to_canvas_space(&self) -> (p: Point)
        ensures
            p == self.spec_to_canvas_space(),
            p.x == self.x * 16 + 8,
            p.y == self.y * 16 + 8,
    {
        let corner = self.to_widget_space();
        Point { x: corner.x + HALF_CELL, y: corner.y + HALF_CELL }
    }
}

impl AddSpecImpl<Coords> for Coords {
    open spec fn obeys_add_spec() -> bool {
        true
    }

    /// Both sums must be columns and rows of the grid.
    open spec fn add_req(self, rhs: Coords) -> bool {
        &&& isize::MIN <= self.x + rhs.x <= isize::MAX
        &&& isize::MIN <= self.y + rhs.y <= isize::MAX
    }

    open spec fn add_spec(self, rhs: Coords) -> Coords {
        Coords { x: (self.x + rhs.x) as isize, y: (self.y + rhs.y) as isize }
    }
}

impl std::ops::Add<Coords> for Coords {
    type Output = Coords;

    /// The sum, column by column and row by row.
    fn add(self, rhs: Coords) -> (sum: Coords) {
        Coords { x: self.x + rhs.x, y: self.y + rhs.y }
    }
}

impl std::ops::AddAssign<Coords> for Coords {
    /// Moves the cell by `rhs`.
    fn add_assign(&mut self, rhs: Coords)
        requires
            isize::MIN <= old(self).x + rhs.x <= isize::MAX,
            isize::MIN <= old(self).y + rhs.y <= isize::MAX,
        ensures
            final(self).x == old(self).x + rhs.x,
            final(self).y == old(self).y + rhs.y,
    {
        *self = *self + rhs
    }
}

/// A cell is found again from its corner: the cell nearest to the corner of
/// a cell is that cell.
pub proof fn lemma_widget_round_trip(c: Coords)
    ensures
        Coords::from_widget_space(c.to_widget_space()) == c,
{
}

/// A cell is found again from its centre: a pointer on the centre of a cell
/// is on that cell.
pub proof fn lemma_canvas_round_trip(c: Coords)
    ensures
        Coords::from_canvas_space(c.to_canvas_space()) == c,
{
}

/// A cell's corner is not its centre. A pointer on the corner of a cell is
/// where four cells meet, and rounding a half away from zero gives it to the
/// cell itself only where column and row are positive; elsewhere it falls to
/// the cell before, as far as there is one.
pub proof fn lemma_corner_in_canvas_space(c: Coords)
    ensures
        Coords::from_canvas_space(c.to_widget_space()) == (Coords {
            x: clamp_to_isize(if c.x >= 1 { c.x as int } else { c.x - 1 }),
            y: clamp_to_isize(if c.y >= 1 { c.y as int } else { c.y - 1 }),
        }),
        c.x >= 1 && c.y >= 1 ==> Coords::from_canvas_space(c.to_widget_space()) == c,
{
}

/// The cell of a pointer is the one whose centre is nearest: the pointer is
/// at most half a cell from that centre on each axis, unless the cell is the
/// last one of the grid.
pub proof fn lemma_nearest_centre(pos: Point)
    ensures
        ({
            let c = Coords::from_canvas_space(pos);
            let centre = c.to_canvas_space();
            &&& isize::MIN < c.x < isize::MAX ==> centre.x - HALF_CELL <= pos.x <= centre.x + HALF_CELL
            &&& isize::MIN < c.y < isize::MAX ==> centre.y - HALF_CELL <= pos.y <= centre.y + HALF_CELL
        }),
{
}

} // verus!

//! The two-valued cell state and the per-cell sampling rule used at
//! construction time.

use vstd::prelude::*;

verus! {

/// The state of one grid position: alive or dead.
#[derive(Clone, Copy, PartialEq, Eq, Structural, Debug)]
pub enum Cell {
    Dead,
    Alive,
}

/// The glyph that renders a cell: `#` for a live cell, `.` for a dead one.
pub open spec fn spec_glyph(c: Cell) -> char {
    if c is Alive {
        '#'
    } else {
        '.'
    }
}

/// The cell that a draw from the random source yields: alive exactly when
/// the draw lies strictly below the requested live percentage.
pub open spec fn spec_cell_from_draw(draw: int, percentage: int) -> Cell {
    if draw < percentage {
        Cell::Alive
    } else {
        Cell::Dead
    }
}

impl Cell {
    /// True exactly when this cell is `Alive`.
    pub fn is_alive(self) -> (r: bool)
        ensures
            r == (self is Alive),
    {
        self == Cell::Alive
    }

    /// True exactly when this cell is `Dead`.
    pub fn is_dead(self) -> (r: bool)
        ensures
            r == (self is Dead),
    {
        self == Cell::Dead
    }

    /// The glyph for this cell.
    pub fn glyph(self) -> (r: char)
        ensures
            r == spec_glyph(self),
    {
        match self {
            Cell::Alive => '#',
            Cell::Dead => '.',
        }
    }

    /// Turns one draw from the uniform source over `[0, 100]` into a cell:
    /// alive exactly when the draw is strictly below `percentage`.
    pub fn from_draw(draw: i32, percentage: u32) -> (r: Cell)
        requires
            0 <= draw <= 100,
            percentage <= 100,
        ensures
            r == spec_cell_from_draw(draw as int, percentage as int),
    {
        if (draw as u32) < percentage {
            Cell::Alive
        } else {
            Cell::Dead
        }
    }
}

/// True when `cells` is what sampling with `percentage` can produce:
/// each cell is the image, under the sampling rule, of a draw from the
/// uniform source over `[0, 100]`.
pub open spec fn seeded_by(cells: Seq<Cell>, draws: Seq<int>, percentage: int) -> bool {
    &&& draws.len() == cells.len()
    &&& forall|i: int| 0 <= i < draws.len() ==> 0 <= #[trigger] draws[i] <= 100
    &&& forall|i: int|
        0 <= i < cells.len() ==> cells[i] == spec_cell_from_draw(#[trigger] draws[i], percentage)
}

/// With a live percentage of zero, every draw the random source can make
/// yields a dead cell.
pub proof fn lemma_zero_percentage_dead(draw: int)
    requires
        0 <= draw <= 100,
    ensures
        spec_cell_from_draw(draw, 0) is Dead,
{
}

/// With the full live percentage, every draw strictly below the top of the
/// draw range yields a live cell. A draw of exactly 100 is not below the
/// percentage and yields a dead cell, so that draw is left out.
pub proof fn lemma_full_percentage_alive(draw: int)
    requires
        0 <= draw < 100,
    ensures
        spec_cell_from_draw(draw, 100) is Alive,
{
}

} // verus!

//! The board: a bounded row-major grid of cells, neighbor counting, and the
//! one-generation advance.

use vstd::prelude::*;

use crate::cell::{seeded_by, spec_cell_from_draw, Cell};
use crate::parse::{parse_usize, spec_parse_bounded, ParseError};

verus! {

/// What a width or height argument denotes: a positive number that fits a
/// machine word, or nothing.
pub open spec fn spec_dim(s: Seq<char>) -> Option<int> {
    match spec_parse_bounded(s, usize::MAX as int) {
        Some(v) => if v > 0 {
            Some(v)
        } else {
            None
        },
        None => None,
    }
}

/// What a percentage argument denotes: a number in `[0, 100]`, or nothing.
pub open spec fn spec_percent(s: Seq<char>) -> Option<int> {
    spec_parse_bounded(s, 100)
}

/// The outcome of the Game of Life rule for one cell: a live cell with two
/// or three live neighbors survives, a dead cell with exactly three live
/// neighbors is born, and every other combination is dead.
pub open spec fn next_cell(c: Cell, neighbors: int) -> Cell {
    if (c is Alive && (neighbors == 2 || neighbors == 3)) || (c is Dead && neighbors == 3) {
        Cell::Alive
    } else {
        Cell::Dead
    }
}

/// A bounded rectangular grid of cells.
///
/// The grid is a flat row-major sequence: the cell at `(row, col)` sits at
/// index `row * width + col`. Edges are bounded, not wrapped: positions off
/// the grid have no cells and contribute nothing to neighbor counts.
pub struct Board {
    /// Number of columns; positive and fixed for the board's lifetime.
    pub width: usize,
    /// Number of rows; positive and fixed for the board's lifetime.
    pub height: usize,
    /// The cells, row-major, always exactly `width * height` of them.
    pub cells: Vec<Cell>,
}

impl Board {
    /// The board invariant: positive dimensions and a cell sequence of
    /// exactly `width * height` entries.
    pub open spec fn wf(self) -> bool {
        &&& self.width > 0
        &&& self.height > 0
        &&& self.cells@.len() == self.width * self.height
    }

    /// True when `(row, col)` lies on the grid.
    pub open spec fn in_bounds(self, row: int, col: int) -> bool {
        0 <= row < self.height && 0 <= col < self.width
    }

    /// True when `(row, col)` lies on the grid and holds a live cell.
    pub open spec fn alive_at(self, row: int, col: int) -> bool {
        self.in_bounds(row, col) && self.cells@[row * self.width + col] is Alive
    }

    /// What one neighboring position contributes to a neighbor count: one
    /// for an in-bounds live cell, zero otherwise.
    pub open spec fn neighbor_contrib(self, row: int, col: int) -> int {
        if self.alive_at(row, col) {
            1
        } else {
            0
        }
    }

    /// What one neighboring position contributes to the count of in-bounds
    /// neighbor positions, live or dead.
    pub open spec fn position_contrib(self, row: int, col: int) -> int {
        if self.in_bounds(row, col) {
            1
        } else {
            0
        }
    }

    /// The number of live cells among the up to eight neighbors of
    /// `(row, col)`: the positions at relative offsets `{-1,0,1} x {-1,0,1}`
    /// except `(0,0)`, with off-grid positions contributing nothing.
    pub open spec fn neighbors_alive(self, row: int, col: int) -> int {
        self.neighbor_contrib(row - 1, col - 1) + self.neighbor_contrib(row - 1, col)
            + self.neighbor_contrib(row - 1, col + 1) + self.neighbor_contrib(row, col - 1)
            + self.neighbor_contrib(row, col + 1) + self.neighbor_contrib(row + 1, col - 1)
            + self.neighbor_contrib(row + 1, col) + self.neighbor_contrib(row + 1, col + 1)
    }

    /// The number of in-bounds positions among the eight neighbor offsets of
    /// `(row, col)`.
    pub open spec fn neighbor_positions(self, row: int, col: int) -> int {
        self.position_contrib(row - 1, col - 1) + self.position_contrib(row - 1, col)
            + self.position_contrib(row - 1, col + 1) + self.position_contrib(row, col - 1)
            + self.position_contrib(row, col + 1) + self.position_contrib(row + 1, col - 1)
            + self.position_contrib(row + 1, col) + self.position_contrib(row + 1, col + 1)
    }

    /// The cell that the rule puts at flat index `i` of the next generation,
    /// evaluated wholly against this generation.
    pub open spec fn next_cell_at(self, i: int) -> Cell {
        next_cell(
            self.cells@[i],
            self.neighbors_alive(i / self.width as int, i % self.width as int),
        )
    }

    /// The whole next generation, cell by cell.
    pub open spec fn next_cells(self) -> Seq<Cell> {
        Seq::new(self.cells@.len(), |i: int| self.next_cell_at(i))
    }
}

/// Relies on `ftkit::random_number`: a draw from the inclusive range handed
/// to it, here `0..=100`; the range is not empty, so the call cannot panic.
/// The draw is random, so nothing beyond its range is promised.
#[verifier::external_body]
fn random_percent() -> (r: i32)
    ensures
        0 <= r <= 100,
{
    ftkit::random_number(0..=100)
}

/// Relies on `ftkit::ARGS`: the process's command-line arguments, the
/// program name first. They come from the environment, so nothing is
/// promised of them.
#[verifier::external_body]
fn program_args() -> (r: Vec<String>)
{
    ftkit::ARGS.into_iter().map(str::to_owned).collect()
}

impl Board {
    /// Builds a board of `width * height` independently sampled cells: each
    /// cell draws once from the uniform random source over `[0, 100]` and
    /// becomes alive exactly when the draw is strictly below `percentage`.
    ///
    /// The draws are random, so the contract pins only what holds of every
    /// outcome: each cell is the image of some in-range draw under the
    /// sampling rule, so a zero percentage yields an all-dead board, and a
    /// live cell proves its draw was below `percentage`.
    pub fn new(width: usize, height: usize, percentage: u32) -> (r: Board)
        requires
            width > 0,
            height > 0,
            percentage <= 100,
            width * height <= usize::MAX,
        ensures
            r.wf(),
            r.width == width,
            r.height == height,
            exists|draws: Seq<int>| seeded_by(r.cells@, draws, percentage as int),
            forall|i: int|
                0 <= i < r.cells@.len() ==> (r.cells@[i] is Alive ==> percentage > 0),
            percentage == 0 ==> forall|i: int| 0 <= i < r.cells@.len() ==> r.cells@[i] is Dead,
    {
        let total = width * height;
        let mut cells: Vec<Cell> = Vec::new();
        let mut k: usize = 0;
        let ghost mut draws: Seq<int> = Seq::empty();
        while k < total
            invariant
                total == width * height,
                k <= total,
                percentage <= 100,
                cells@.len() == k,
                draws.len() == k,
                forall|j: int| 0 <= j < k ==> 0 <= #[trigger] draws[j] <= 100,
                forall|j: int|
                    0 <= j < k ==> cells@[j] == spec_cell_from_draw(
                        #[trigger] draws[j],
                        percentage as int,
                    ),
                forall|i: int| 0 <= i < k ==> (cells@[i] is Alive ==> percentage > 0),
                percentage == 0 ==> forall|i: int| 0 <= i < k ==> cells@[i] is Dead,
            decreases total - k,
        {
            let draw = random_percent();
            let state = Cell::from_draw(draw, percentage);
            cells.push(state);
            proof {
                draws = draws.push(draw as int);
            }
            k = k + 1;
        }
        proof {
            assert(seeded_by(cells@, draws, percentage as int));
        }
        Board { width, height, cells }
    }

    /// Builds a board that holds an explicit row-major cell sequence.
    pub fn from_cells(width: usize, height: usize, cells: Vec<Cell>) -> (r: Board)
        requires
            width > 0,
            height > 0,
            cells@.len() == width * height,
        ensures
            r.wf(),
            r.width == width,
            r.height == height,
            r.cells@ == cells@,
    {
        Board { width, height, cells }
    }

    /// Parses `[program name, width, height, percentage]` into a freshly
    /// seeded board.
    ///
    /// Exactly four arguments are accepted. The width and the height must
    /// each be a positive machine-word decimal number, the percentage a
    /// decimal number in `[0, 100]`; the first argument that fails names
    /// its parameter in the error, width before height before percentage.
    /// A dimension pair whose cell count overflows a machine word is
    /// rejected with the height argument after the percentage is checked.
    pub fn from_args_list(args: &Vec<String>) -> (r: Result<Board, ParseError>)
        ensures
            ({
                let n = args@.len();
                &&& (n < 4 ==> (r matches Err(e) && e is NotEnoughArguments))
                &&& (n > 4 ==> (r matches Err(e) && e is TooManyArguments))
                &&& (n == 4 ==> {
                    let w = spec_dim(args@[1]@);
                    let h = spec_dim(args@[2]@);
                    let p = spec_percent(args@[3]@);
                    &&& (w is None ==> (r matches Err(e) && e matches ParseError::InvalidWidth {
                        arg,
                    } && arg@ == args@[1]@))
                    &&& (w is Some && h is None ==> (r matches Err(e)
                        && e matches ParseError::InvalidHeight { arg } && arg@ == args@[2]@))
                    &&& (w is Some && h is Some && p is None ==> (r matches Err(e)
                        && e matches ParseError::InvalidPercentage { arg } && arg@ == args@[3]@))
                    &&& (w is Some && h is Some && p is Some && w->0 * h->0 > usize::MAX ==> (
                    r matches Err(e) && e matches ParseError::InvalidHeight { arg } && arg@
                        == args@[2]@))
                    &&& (w is Some && h is Some && p is Some && w->0 * h->0 <= usize::MAX ==> (
                    r matches Ok(b) && {
                        &&& b.wf()
                        &&& b.width == w->0
                        &&& b.height == h->0
                        &&& (p == Some(0int) ==> forall|i: int|
                            0 <= i < b.cells@.len() ==> b.cells@[i] is Dead)
                    }))
                })
            }),
    {
        if args.len() < 4 {
            return Err(ParseError::NotEnoughArguments);
        }
        if args.len() > 4 {
            return Err(ParseError::TooManyArguments);
        }
        let width = match parse_usize(args[1].as_str()) {
            Some(v) => {
                if v > 0 {
                    v
                } else {
                    return Err(ParseError::InvalidWidth { arg: args[1].clone() });
                }
            },
            None => {
                return Err(ParseError::InvalidWidth { arg: args[1].clone() });
            },
        };
        let height = match parse_usize(args[2].as_str()) {
            Some(v) => {
                if v > 0 {
                    v
                } else {
                    return Err(ParseError::InvalidHeight { arg: args[2].clone() });
                }
            },
            None => {
                return Err(ParseError::InvalidHeight { arg: args[2].clone() });
            },
        };
        let percentage = match parse_usize(args[3].as_str()) {
            Some(v) => {
                if v <= 100 {
                    v as u32
                } else {
                    return Err(ParseError::InvalidPercentage { arg: args[3].clone() });
                }
            },
            None => {
                return Err(ParseError::InvalidPercentage { arg: args[3].clone() });
            },
        };
        if width.checked_mul(height).is_none() {
            return Err(ParseError::InvalidHeight { arg: args[2].clone() });
        }
        Ok(Board::new(width, height, percentage))
    }

    /// Reads the process's command-line arguments and parses them into a
    /// board. The arguments come from the environment, so the contract
    /// pins only what holds of every outcome: a board handed back is
    /// well formed.
    pub fn from_args() -> (r: Result<Board, ParseError>)
        ensures
            r matches Ok(b) ==> b.wf(),
    {
        let args = program_args();
        Board::from_args_list(&args)
    }

    /// True when the in-bounds position `(row, col)` holds a live cell.
    pub(crate) fn cell_alive(&self, row: usize, col: usize) -> (r: bool)
        requires
            self.wf(),
            row < self.height,
            col < self.width,
        ensures
            r == self.alive_at(row as int, col as int),
    {
        let n = self.cells.len();
        proof {
            assert(n == self.width * self.height);
            assert(row * self.width + col < self.width * self.height) by (nonlinear_arith)
                requires
                    row < self.height,
                    col < self.width,
            ;
        }
        let index = row * self.width + col;
        self.cells[index].is_alive()
    }

    /// Counts the live cells among the up to eight neighbors of the cell at
    /// flat index `index`, reading only the current generation. Off-grid
    /// positions are not wrapped and contribute nothing, so the count is at
    /// most eight, and at most the number of in-bounds neighbor positions.
    pub fn count_neighbors_alive(&self, index: usize) -> (r: u8)
        requires
            self.wf(),
            index < self.cells@.len(),
        ensures
            r as int == self.neighbors_alive(
                index as int / self.width as int,
                index as int % self.width as int,
            ),
            r <= 8,
    {
        let row = index / self.width;
        let col = index % self.width;
        proof {
            assert((index as int / self.width as int) < self.height) by (nonlinear_arith)
                requires
                    self.width > 0,
                    self.height > 0,
                    index < self.width * self.height,
            ;
            assert((index as int % self.width as int) < self.width) by (nonlinear_arith)
                requires
                    self.width > 0,
            ;
        }
        let mut count: u8 = 0;
        if row > 0 {
            if col > 0 && self.cell_alive(row - 1, col - 1) {
                count = count + 1;
            }
            if self.cell_alive(row - 1, col) {
                count = count + 1;
            }
            if col + 1 < self.width && self.cell_alive(row - 1, col + 1) {
                count = count + 1;
            }
        }
        if col > 0 && self.cell_alive(row, col - 1) {
            count = count + 1;
        }
        if col + 1 < self.width && self.cell_alive(row, col + 1) {
            count = count + 1;
        }
        if row + 1 < self.height {
            if col > 0 && self.cell_alive(row + 1, col - 1) {
                count = count + 1;
            }
            if self.cell_alive(row + 1, col) {
                count = count + 1;
            }
            if col + 1 < self.width && self.cell_alive(row + 1, col + 1) {
                count = count + 1;
            }
        }
        count
    }

    /// Advances the board one generation: every cell of the next generation
    /// is computed from the current one under the birth/survival rule, and
    /// only then does the new sequence replace the old, so no cell's update
    /// can contaminate another's neighbor count. The dimensions never
    /// change, and the cell count stays exactly `width * height`.
    pub fn step(&mut self)
        requires
            old(self).wf(),
        ensures
            final(self).wf(),
            final(self).width == old(self).width,
            final(self).height == old(self).height,
            final(self).cells@.len() == old(self).cells@.len(),
            final(self).cells@ == old(self).next_cells(),
    {
        let total = self.cells.len();
        let mut next: Vec<Cell> = Vec::new();
        let mut i: usize = 0;
        while i < total
            invariant
                *self == *old(self),
                self.wf(),
                total == self.width * self.height,
                i <= total,
                next@.len() == i,
                forall|j: int| 0 <= j < i ==> next@[j] == self.next_cell_at(j),
            decreases total - i,
        {
            let neighbors = self.count_neighbors_alive(i);
            let state = if self.cells[i].is_alive() {
                if neighbors == 2 || neighbors == 3 {
                    Cell::Alive
                } else {
                    Cell::Dead
                }
            } else {
                if neighbors == 3 {
                    Cell::Alive
                } else {
                    Cell::Dead
                }
            };
            next.push(state);
            i = i + 1;
        }
        self.cells = next;
        proof {
            assert(self.cells@ =~= old(self).next_cells());
        }
    }
}

/// A cell's neighbor count is never negative, never above the number of
/// in-bounds positions among its eight neighbor offsets, and never above
/// eight.
pub proof fn lemma_neighbor_count_bounds(b: Board, row: int, col: int)
    ensures
        0 <= b.neighbors_alive(row, col),
        b.neighbors_alive(row, col) <= b.neighbor_positions(row, col),
        b.neighbor_positions(row, col) <= 8,
{
}

/// On a board at least two cells wide and two cells high, each corner cell
/// has exactly three in-bounds neighbor positions, so a corner cell can
/// never count more than three live neighbors.
pub proof fn lemma_corner_neighbor_positions(b: Board)
    requires
        b.wf(),
        b.width >= 2,
        b.height >= 2,
    ensures
        b.neighbor_positions(0, 0) == 3,
        b.neighbor_positions(0, b.width - 1) == 3,
        b.neighbor_positions(b.height - 1, 0) == 3,
        b.neighbor_positions(b.height - 1, b.width - 1) == 3,
{
}

/// Advancing a generation is deterministic: two boards that hold the same
/// grid, whatever else they were built from, have the same next generation.
pub proof fn lemma_step_deterministic(a: Board, b: Board)
    requires
        a.width == b.width,
        a.height == b.height,
        a.cells@ == b.cells@,
    ensures
        a.next_cells() == b.next_cells(),
{
    assert(a.next_cells() =~= b.next_cells());
}

} // verus!

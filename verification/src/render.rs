//! Rendering a generation as text: one line per row, each cell drawn as a
//! glyph followed by a space.

use vstd::prelude::*;
use vstd::string::StringExecFns;

use crate::board::Board;
use crate::cell::spec_glyph;

verus! {

/// The rendered text of the first `count` cells of row `row`: each cell's
/// glyph followed by one space.
pub open spec fn spec_row_chars(b: Board, row: int, count: int) -> Seq<char>
    decreases count,
{
    if count <= 0 {
        Seq::empty()
    } else {
        spec_row_chars(b, row, count - 1) + seq![
            spec_glyph(b.cells@[row * b.width + (count - 1)]),
            ' ',
        ]
    }
}

/// The rendered text of one whole row.
pub open spec fn spec_row(b: Board, row: int) -> Seq<char> {
    spec_row_chars(b, row, b.width as int)
}

impl Board {
    /// Renders row `row` of the current generation: `#` for each live cell,
    /// `.` for each dead one, every glyph followed by a space. Reads the
    /// board and mutates nothing.
    pub fn render_row(&self, row: usize) -> (r: String)
        requires
            self.wf(),
            row < self.height,
        ensures
            r@ == spec_row(*self, row as int),
    {
        let mut line = String::new();
        let mut col: usize = 0;
        while col < self.width
            invariant
                self.wf(),
                row < self.height,
                col <= self.width,
                line@ == spec_row_chars(*self, row as int, col as int),
            decreases self.width - col,
        {
            if self.cell_alive(row, col) {
                line.append("# ");
            } else {
                line.append(". ");
            }
            proof {
                reveal_strlit("# ");
                reveal_strlit(". ");
                assert("# "@ =~= seq!['#', ' ']);
                assert(". "@ =~= seq!['.', ' ']);
                assert(line@ =~= spec_row_chars(*self, row as int, col as int + 1));
            }
            col = col + 1;
        }
        line
    }

    /// Renders the whole current generation: `height` lines, the top row
    /// first, each line as `render_row` draws it.
    pub fn render(&self) -> (r: Vec<String>)
        requires
            self.wf(),
        ensures
            r@.len() == self.height,
            forall|i: int| 0 <= i < r@.len() ==> r@[i]@ == spec_row(*self, i),
    {
        let mut lines: Vec<String> = Vec::new();
        let mut row: usize = 0;
        while row < self.height
            invariant
                self.wf(),
                row <= self.height,
                lines@.len() == row,
                forall|i: int| 0 <= i < row ==> lines@[i]@ == spec_row(*self, i),
            decreases self.height - row,
        {
            let line = self.render_row(row);
            lines.push(line);
            row = row + 1;
        }
        lines
    }
}

} // verus!

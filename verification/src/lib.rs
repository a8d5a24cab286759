//! Conway's Game of Life on a bounded rectangular grid.
//!
//! The board owns a flat row-major sequence of cells, counts live neighbors
//! without wrapping at the edges, and advances one generation at a time under
//! the classic birth/survival rule. Construction seeds each cell from a
//! uniform random source; parsing turns command-line style arguments into a
//! validated configuration; rendering produces one line of glyphs per row.

pub mod board;
pub mod cell;
pub mod parse;
pub mod render;

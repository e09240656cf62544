//! Mapping between board coordinates and terminal screen coordinates.
use vstd::prelude::*;

verus! {

/// Width of one cell, in terminal columns.
pub const CELL_WIDTH: u16 = 7;

/// Height of one cell, in terminal rows.
pub const CELL_HEIGHT: u16 = 3;

/// Horizontal gap between two cells.
pub const CELL_WIDTH_GAP: u16 = 2;

/// Vertical gap between two cells.
pub const CELL_HEIGHT_GAP: u16 = 1;

/// Number of columns (and of rows) of the board.
pub const BOARD_SIZE: u16 = 3;

/// Smallest terminal width on which the board's origin is not negative.
pub const MIN_COLUMNS: u16 = 24;

/// Smallest terminal height on which the board's origin is not negative.
pub const MIN_ROWS: u16 = 10;

/// Left edge of the board on a screen `columns` wide (may be negative on a
/// screen that is too small).
pub open spec fn origin_column(columns: int) -> int {
    columns / 2 - CELL_WIDTH - CELL_WIDTH / 2 - CELL_WIDTH_GAP
}

/// Top edge of the board on a screen `rows` high.
pub open spec fn origin_row(rows: int) -> int {
    rows / 2 - CELL_HEIGHT - CELL_HEIGHT / 2 - CELL_HEIGHT_GAP
}

/// Left edge of the cell in board column `column`.
pub open spec fn start_column(column: int, board_c: int) -> int {
    column * (CELL_WIDTH + CELL_WIDTH_GAP) + board_c
}

/// Top edge of the cell in board row `row`.
pub open spec fn start_row(row: int, board_r: int) -> int {
    row * (CELL_HEIGHT + CELL_HEIGHT_GAP) + board_r
}

/// Whether the screen point (`mc`, `mr`) lies in the inclusive rectangle of
/// the cell at (`column`, `row`) of a board whose origin is (`board_c`, `board_r`).
pub open spec fn hits(board_c: int, board_r: int, column: int, row: int, mc: int, mr: int) -> bool {
    &&& start_column(column, board_c) <= mc <= start_column(column, board_c) + CELL_WIDTH
    &&& start_row(row, board_r) <= mr <= start_row(row, board_r) + CELL_HEIGHT
}

/// A board coordinate: column and row, each in `0..3` on a valid board.
#[derive(Clone, Copy, Debug, PartialEq, Eq, Structural)]
pub struct Pos {
    pub column: u16,
    pub row: u16,
}

/// A mouse position on the terminal screen.
#[derive(Clone, Copy, Debug, PartialEq, Eq, Structural)]
pub struct Mouse {
    pub column: u16,
    pub row: u16,
}

/// Left edge of the board on a screen `columns` wide.
pub fn board_origin_column(columns: u16) -> (r: u16)
    requires
        columns >= MIN_COLUMNS,
    ensures
        r == origin_column(columns as int),
{
    columns / 2 - CELL_WIDTH - CELL_WIDTH / 2 - CELL_WIDTH_GAP
}

/// Top edge of the board on a screen `rows` high.
pub fn board_origin_row(rows: u16) -> (r: u16)
    requires
        rows >= MIN_ROWS,
    ensures
        r == origin_row(rows as int),
{
    rows / 2 - CELL_HEIGHT - CELL_HEIGHT / 2 - CELL_HEIGHT_GAP
}

/// Two distinct cells of the board never share a screen point, so a point
/// hits at most one cell.
pub proof fn lemma_hit_unique(
    board_c: int,
    board_r: int,
    c1: int,
    r1: int,
    c2: int,
    r2: int,
    mc: int,
    mr: int,
)
    requires
        0 <= c1 < BOARD_SIZE,
        0 <= r1 < BOARD_SIZE,
        0 <= c2 < BOARD_SIZE,
        0 <= r2 < BOARD_SIZE,
        hits(board_c, board_r, c1, r1, mc, mr),
        hits(board_c, board_r, c2, r2, mc, mr),
    ensures
        c1 == c2,
        r1 == r2,
{
}

} // verus!

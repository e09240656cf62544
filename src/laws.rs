//! Properties that relate the board's operations to one another.
use vstd::prelude::*;
use crate::board::{
    candidate_under, candidates, cells_wf, index_of, occupant_at, selectable, selection_for, Cell,
};
use crate::geometry::{
    hits, lemma_hit_unique, origin_column, origin_row, start_column, start_row, Mouse, Pos,
    BOARD_SIZE, CELL_HEIGHT, CELL_WIDTH, MIN_COLUMNS, MIN_ROWS,
};

verus! {

/// On a screen at least `MIN_COLUMNS` × `MIN_ROWS`, the board's origin and
/// every cell's rectangle lie at non-negative coordinates, and the
/// rectangles of two distinct cells share no screen point.
pub proof fn lemma_layout_disjoint(columns: u16, rows: u16, c1: int, r1: int, c2: int, r2: int)
    requires
        columns >= MIN_COLUMNS,
        rows >= MIN_ROWS,
        0 <= c1 < BOARD_SIZE,
        0 <= r1 < BOARD_SIZE,
        0 <= c2 < BOARD_SIZE,
        0 <= r2 < BOARD_SIZE,
        c1 != c2 || r1 != r2,
    ensures
        origin_column(columns as int) >= 0,
        origin_row(rows as int) >= 0,
        start_column(c1, origin_column(columns as int)) >= 0,
        start_row(r1, origin_row(rows as int)) >= 0,
        forall|mc: int, mr: int|
            !(#[trigger] hits(origin_column(columns as int), origin_row(rows as int), c1, r1, mc, mr)
                && #[trigger] hits(origin_column(columns as int), origin_row(rows as int), c2, r2, mc, mr)),
{
    let oc = origin_column(columns as int);
    let or = origin_row(rows as int);
    assert forall|mc: int, mr: int|
        !(#[trigger] hits(oc, or, c1, r1, mc, mr) && #[trigger] hits(oc, or, c2, r2, mc, mr)) by {
        if hits(oc, or, c1, r1, mc, mr) && hits(oc, or, c2, r2, mc, mr) {
            lemma_hit_unique(oc, or, c1, r1, c2, r2, mc, mr);
        }
    }
}

/// The centre point of a cell's rectangle hits that cell.
pub proof fn lemma_center_hits(board_c: int, board_r: int, column: int, row: int)
    ensures
        hits(
            board_c,
            board_r,
            column,
            row,
            start_column(column, board_c) + CELL_WIDTH / 2,
            start_row(row, board_r) + CELL_HEIGHT / 2,
        ),
{
}

/// A click on a cell that holds no player piece selects nothing.
pub proof fn lemma_select_non_player(
    cells: Seq<Cell>,
    board_c: int,
    board_r: int,
    column: int,
    row: int,
    mouse: Mouse,
)
    requires
        cells_wf(cells),
        0 <= column < BOARD_SIZE,
        0 <= row < BOARD_SIZE,
        hits(board_c, board_r, column, row, mouse.column as int, mouse.row as int),
        !(occupant_at(cells, column, row) is Player),
    ensures
        selection_for(cells, board_c, board_r, mouse) is None,
{
    if exists|i: int| 0 <= i < cells.len() && selectable(cells, board_c, board_r, mouse, i) {
        let i = choose|i: int| 0 <= i < cells.len() && selectable(cells, board_c, board_r, mouse, i);
        assert(cells[i].column == i / 3 && cells[i].row == i % 3);
        lemma_hit_unique(board_c, board_r, cells[i].column as int, cells[i].row as int, column, row, mouse.column as int, mouse.row as int);
        assert(cells[index_of(column, row)].column == index_of(column, row) / 3);
        assert(i == index_of(column, row));
    }
}

/// Selecting a piece and then clicking where no cell is returns to no
/// selection and no candidates: the second click is no move, selects
/// nothing, and its candidates are empty.
pub proof fn lemma_select_then_click_away(
    cells: Seq<Cell>,
    board_c: int,
    board_r: int,
    piece: Mouse,
    away: Mouse,
)
    requires
        cells_wf(cells),
        forall|c: int, r: int|
            0 <= c < BOARD_SIZE && 0 <= r < BOARD_SIZE ==> !#[trigger] hits(
                board_c,
                board_r,
                c,
                r,
                away.column as int,
                away.row as int,
            ),
    ensures
        candidate_under(
            candidates(cells, selection_for(cells, board_c, board_r, piece)),
            board_c,
            board_r,
            away,
        ) is None,
        selection_for(cells, board_c, board_r, away) is None,
        candidates(cells, selection_for(cells, board_c, board_r, away)) == Seq::<Pos>::empty(),
{
    let sel = selection_for(cells, board_c, board_r, piece);
    let moves = candidates(cells, sel);
    if sel is Some {
        let i = choose|i: int| 0 <= i < cells.len() && selectable(cells, board_c, board_r, piece, i);
        assert(cells[i].column == i / 3 && cells[i].row == i % 3);
    }
    assert forall|k: int| 0 <= k < moves.len() implies !#[trigger] hits(
        board_c,
        board_r,
        moves[k].column as int,
        moves[k].row as int,
        away.column as int,
        away.row as int,
    ) by {
        assert(moves[k].column < BOARD_SIZE && moves[k].row < BOARD_SIZE);
    }
    assert forall|i: int| 0 <= i < cells.len() implies !selectable(cells, board_c, board_r, away, i) by {
        assert(cells[i].column == i / 3 && cells[i].row == i % 3);
    }
}

/// On the initial rows, the player piece at (1, 2) has the single candidate
/// (1, 1) when that cell is empty, and none when it and both cells beside
/// it are occupied.
pub proof fn lemma_middle_piece_candidates(cells: Seq<Cell>)
    requires
        cells_wf(cells),
        occupant_at(cells, 1, 2) is Player,
    ensures
        occupant_at(cells, 1, 1) is Empty ==> candidates(cells, Some(cells[index_of(1, 2)]))
            == seq![Pos { column: 1, row: 1 }],
        !(occupant_at(cells, 0, 1) is Empty) && !(occupant_at(cells, 1, 1) is Empty) && !(
        occupant_at(cells, 2, 1) is Empty) ==> candidates(cells, Some(cells[index_of(1, 2)]))
            == Seq::<Pos>::empty(),
{
    assert(cells[index_of(1, 2)].column == 1 && cells[index_of(1, 2)].row == 2);
}

} // verus!

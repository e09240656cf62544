use board_click::board::{when_clicked, Board, Cell, ConfigError, InputEvent, MoveError, Occupant};
use board_click::geometry::{board_origin_column, board_origin_row, Mouse, Pos};
use board_click::render::{Paint, Tint};

fn board() -> Board {
    Board::new(80, 24).unwrap()
}

/// Centre of a cell on the 80 × 24 screen of `board()`.
fn center(column: u16, row: u16) -> Mouse {
    let b = board();
    let cell = Cell { column, row, occupant: Occupant::Empty };
    Mouse { column: cell.get_start_c(b.get_c()) + 3, row: cell.get_start_r(b.get_r()) + 1 }
}

fn pos(column: u16, row: u16) -> Pos {
    Pos { column, row }
}

#[test]
fn new_lays_out_initial_board() {
    let b = board();
    assert_eq!(b.cells.len(), 9);
    for c in 0..3u16 {
        assert_eq!(b.occupant(c, 0), Occupant::Computer);
        assert_eq!(b.occupant(c, 1), Occupant::Empty);
        assert_eq!(b.occupant(c, 2), Occupant::Player);
    }
    assert_eq!(b.cells[5], Cell { column: 1, row: 2, occupant: Occupant::Player });
    assert!(b.selected_cell.is_none());
    assert!(b.move_cells.is_empty());
    assert!(b.running);
    assert_eq!((b.columns, b.rows), (80, 24));
}

#[test]
fn new_rejects_small_screen() {
    assert_eq!(Board::new(23, 24).unwrap_err(), ConfigError::ScreenTooSmall);
    assert_eq!(Board::new(80, 9).unwrap_err(), ConfigError::ScreenTooSmall);
    assert!(Board::new(24, 10).is_ok());
}

#[test]
fn origin_formula() {
    let b = board();
    assert_eq!(b.get_c(), 28);
    assert_eq!(b.get_r(), 7);
    assert_eq!(board_origin_column(24), 0);
    assert_eq!(board_origin_row(10), 0);
    assert_eq!(board_origin_column(25), 0);
    assert_eq!(board_origin_column(101), 38);
    assert_eq!(board_origin_row(31), 10);
}

#[test]
fn cell_origin_formula() {
    let cell = Cell { column: 2, row: 1, occupant: Occupant::Empty };
    assert_eq!(cell.get_start_c(28), 46);
    assert_eq!(cell.get_start_r(7), 11);
}

#[test]
fn hit_test_is_inclusive() {
    let b = board();
    let cell = Cell { column: 0, row: 0, occupant: Occupant::Computer };
    assert!(cell.is_clicked(&b, &Mouse { column: 28, row: 7 }));
    assert!(cell.is_clicked(&b, &Mouse { column: 35, row: 10 }));
    assert!(!cell.is_clicked(&b, &Mouse { column: 36, row: 10 }));
    assert!(!cell.is_clicked(&b, &Mouse { column: 35, row: 11 }));
    assert!(!cell.is_clicked(&b, &Mouse { column: 27, row: 7 }));
}

#[test]
fn rectangles_are_disjoint_and_non_negative() {
    for (cols, rows) in [(24u16, 10u16), (80, 24), (200, 60)] {
        let b = Board::new(cols, rows).unwrap();
        for mc in 0..cols {
            for mr in 0..rows {
                let m = Mouse { column: mc, row: mr };
                let n = b.cells.iter().filter(|c| c.is_clicked(&b, &m)).count();
                assert!(n <= 1);
            }
        }
    }
}

#[test]
fn center_hits_its_cell() {
    let b = board();
    for cell in &b.cells {
        let m = center(cell.column, cell.row);
        assert!(cell.is_clicked(&b, &m));
    }
}

#[test]
fn selecting_non_player_selects_nothing() {
    let mut b = board();
    b.update_selected(&center(0, 0));
    assert!(b.selected_cell.is_none());
    b.update_selected(&center(1, 1));
    assert!(b.selected_cell.is_none());
    b.update_selected(&center(1, 1));
    assert!(b.selected_cell.is_none());
}

#[test]
fn selecting_player_piece() {
    let mut b = board();
    b.update_selected(&center(2, 2));
    assert_eq!(b.selected_cell, Some(Cell { column: 2, row: 2, occupant: Occupant::Player }));
}

#[test]
fn candidates_of_middle_piece() {
    let mut b = board();
    b.update_selected(&center(1, 2));
    b.update_move();
    assert_eq!(b.move_cells, vec![pos(1, 1)]);
}

#[test]
fn candidates_of_middle_piece_when_blocked() {
    let mut b = board();
    for c in 0..3usize {
        b.cells[c * 3 + 1].occupant = Occupant::Computer;
    }
    b.update_selected(&center(1, 2));
    b.update_move();
    assert!(b.move_cells.is_empty());
}

#[test]
fn diagonal_empty_opens_straight_ahead() {
    let mut b = board();
    b.cells[4].occupant = Occupant::Computer;
    b.cells[7].occupant = Occupant::Computer;
    b.update_selected(&center(1, 2));
    b.update_move();
    assert_eq!(b.move_cells, vec![pos(1, 1)]);
}

#[test]
fn corner_piece_candidates() {
    let mut b = board();
    b.cells[1].occupant = Occupant::Computer;
    b.cells[4].occupant = Occupant::Computer;
    b.update_selected(&center(0, 2));
    b.update_move();
    assert!(b.move_cells.is_empty());
}

#[test]
fn top_row_piece_has_no_candidates() {
    let mut b = board();
    b.cells[0].occupant = Occupant::Player;
    b.update_selected(&center(0, 0));
    b.update_move();
    assert!(b.selected_cell.is_some());
    assert!(b.move_cells.is_empty());
}

#[test]
fn select_then_click_away_returns_to_idle() {
    let mut b = board();
    when_clicked(&mut b, center(0, 2));
    assert!(b.selected_cell.is_some());
    assert_eq!(b.move_cells, vec![pos(0, 1)]);
    when_clicked(&mut b, Mouse { column: 0, row: 0 });
    assert!(b.selected_cell.is_none());
    assert!(b.move_cells.is_empty());
    let fresh = board();
    assert_eq!(b.cells, fresh.cells);
}

#[test]
fn move_to_non_candidate_fails() {
    let mut b = board();
    when_clicked(&mut b, center(1, 2));
    let cells = b.cells.clone();
    let sel = b.selected_cell;
    assert_eq!(b.update_cells(pos(0, 1)), Err(MoveError::NotACandidate));
    assert_eq!(b.cells, cells);
    assert_eq!(b.selected_cell, sel);
    assert_eq!(b.move_cells, vec![pos(1, 1)]);
}

#[test]
fn move_without_selection_fails() {
    let mut b = board();
    assert_eq!(b.update_cells(pos(1, 1)), Err(MoveError::NoSelection));
    assert_eq!(b.cells, board().cells);
}

#[test]
fn move_to_candidate() {
    let mut b = board();
    when_clicked(&mut b, center(2, 2));
    assert_eq!(b.update_cells(pos(2, 1)), Ok(()));
    assert_eq!(b.occupant(2, 1), Occupant::Player);
    assert_eq!(b.occupant(2, 2), Occupant::Empty);
    assert!(b.selected_cell.is_none());
    assert!(b.move_cells.is_empty());
}

#[test]
fn click_select_then_click_candidate_moves() {
    let mut b = board();
    assert!(b.handle_event(InputEvent::MouseDown(center(1, 2))));
    assert_eq!(b.selected_cell, Some(Cell { column: 1, row: 2, occupant: Occupant::Player }));
    assert_eq!(b.move_cells, vec![pos(1, 1)]);
    assert!(b.handle_event(InputEvent::MouseDown(center(1, 1))));
    assert_eq!(b.occupant(1, 2), Occupant::Empty);
    assert_eq!(b.occupant(1, 1), Occupant::Player);
    assert!(b.selected_cell.is_none());
    assert!(b.move_cells.is_empty());
    assert_eq!(b.occupant(0, 2), Occupant::Player);
    assert_eq!(b.occupant(1, 0), Occupant::Computer);
}

#[test]
fn reselect_other_piece() {
    let mut b = board();
    when_clicked(&mut b, center(1, 2));
    when_clicked(&mut b, center(0, 2));
    assert_eq!(b.selected_cell, Some(Cell { column: 0, row: 2, occupant: Occupant::Player }));
    assert_eq!(b.move_cells, vec![pos(0, 1)]);
}

#[test]
fn quit_stops_and_freezes_board() {
    let mut b = board();
    b.handle_event(InputEvent::MouseDown(center(1, 2)));
    assert!(!b.handle_event(InputEvent::KeyPress('q')));
    assert!(!b.running);
    assert!(b.selected_cell.is_some());
    assert!(!b.handle_event(InputEvent::MouseDown(center(1, 1))));
    assert_eq!(b.occupant(1, 1), Occupant::Empty);
    assert_eq!(b.move_cells, vec![pos(1, 1)]);
    assert!(!b.running);
}

#[test]
fn quit_when_idle() {
    let mut b = board();
    b.quit();
    assert!(!b.running);
    b.quit();
    assert!(!b.running);
    assert_eq!(b.cells, board().cells);
}

#[test]
fn other_keys_and_events_are_ignored() {
    let mut b = board();
    assert!(!b.handle_event(InputEvent::KeyPress('x')));
    assert!(!b.handle_event(InputEvent::Other));
    assert!(b.running);
    assert!(b.selected_cell.is_none());
}

#[test]
fn colors_of_occupants() {
    let c = |o| Cell { column: 0, row: 0, occupant: o }.get_color();
    assert_eq!(c(Occupant::Computer), Tint::Computer);
    assert_eq!(c(Occupant::Player), Tint::Player);
    assert_eq!(c(Occupant::Empty), Tint::Empty);
}

#[test]
fn frame_of_initial_board() {
    let b = board();
    let frame = b.draw();
    assert_eq!(frame.len(), 9 * 21);
    assert_eq!(frame[0], Paint { column: 28, row: 7, tint: Tint::Computer });
    assert_eq!(frame[1], Paint { column: 28, row: 8, tint: Tint::Computer });
    assert_eq!(frame[3], Paint { column: 29, row: 7, tint: Tint::Computer });
    assert_eq!(frame[20], Paint { column: 34, row: 9, tint: Tint::Computer });
    assert_eq!(frame[21], Paint { column: 28, row: 11, tint: Tint::Empty });
    assert_eq!(frame[188], Paint { column: 52, row: 17, tint: Tint::Player });
}

#[test]
fn frame_with_selection_and_marker() {
    let mut b = board();
    when_clicked(&mut b, center(1, 2));
    let frame = b.draw();
    assert_eq!(frame.len(), 9 * 21 + 21 + 4);
    assert_eq!(frame[189], Paint { column: 37, row: 15, tint: Tint::Selected });
    assert_eq!(
        frame[210..].to_vec(),
        vec![
            Paint { column: 37, row: 11, tint: Tint::Move },
            Paint { column: 37, row: 13, tint: Tint::Move },
            Paint { column: 43, row: 11, tint: Tint::Move },
            Paint { column: 43, row: 13, tint: Tint::Move },
        ]
    );
}

#[test]
fn resize_recenters_board() {
    let mut b = board();
    when_clicked(&mut b, center(1, 2));
    assert!(b.handle_event(InputEvent::Resize(100, 30)));
    assert_eq!((b.columns, b.rows), (100, 30));
    assert_eq!(b.get_c(), 38);
    assert_eq!(b.get_r(), 10);
    assert_eq!(b.move_cells, vec![pos(1, 1)]);
    assert!(b.selected_cell.is_some());
}

#[test]
fn resize_too_small_is_ignored() {
    let mut b = board();
    assert!(!b.handle_event(InputEvent::Resize(20, 30)));
    assert!(!b.handle_event(InputEvent::Resize(100, 9)));
    assert_eq!((b.columns, b.rows), (80, 24));
}

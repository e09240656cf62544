//! The board: its nine cells, the current selection and move candidates, and
//! the operations of the interaction state machine.
use vstd::prelude::*;
use crate::geometry::{
    board_origin_column, board_origin_row, hits, lemma_hit_unique, origin_column, origin_row,
    start_column, start_row, Mouse, Pos, BOARD_SIZE, CELL_HEIGHT, CELL_HEIGHT_GAP, CELL_WIDTH,
    CELL_WIDTH_GAP, MIN_COLUMNS, MIN_ROWS,
};

verus! {

/// What stands on a cell.
#[derive(Clone, Copy, Debug, PartialEq, Eq, Structural)]
pub enum Occupant {
    Empty,
    Player,
    Computer,
}

/// One of the nine board positions with its occupant.
#[derive(Clone, Copy, Debug, PartialEq, Eq, Structural)]
pub struct Cell {
    pub column: u16,
    pub row: u16,
    pub occupant: Occupant,
}

/// Why a move was refused.
#[derive(Clone, Copy, Debug, PartialEq, Eq, Structural)]
pub enum MoveError {
    /// No piece is selected.
    NoSelection,
    /// The destination is not one of the current move candidates.
    NotACandidate,
}

/// Why a board could not be laid out.
#[derive(Clone, Copy, Debug, PartialEq, Eq, Structural)]
pub enum ConfigError {
    /// The screen is narrower than `MIN_COLUMNS` or lower than `MIN_ROWS`.
    ScreenTooSmall,
}

/// The game board and its interaction state.
#[derive(Debug)]
pub struct Board {
    /// The nine cells, column by column: the cell at (column, row) is at
    /// index `column * 3 + row`.
    pub cells: Vec<Cell>,
    /// The piece chosen for a move, as it was when chosen.
    pub selected_cell: Option<Cell>,
    /// Where the selected piece may move.
    pub move_cells: Vec<Pos>,
    /// Whether the event loop goes on.
    pub running: bool,
    /// Screen width.
    pub columns: u16,
    /// Screen height.
    pub rows: u16,
}

/// Index in `Board::cells` of the cell at (`column`, `row`).
pub open spec fn index_of(column: int, row: int) -> int {
    column * BOARD_SIZE + row
}

/// Occupant of the cell at (`column`, `row`) in a well-formed cell list.
pub open spec fn occupant_at(cells: Seq<Cell>, column: int, row: int) -> Occupant {
    cells[index_of(column, row)].occupant
}

/// The occupant that the initial layout puts in board row `row`.
pub open spec fn initial_occupant(row: int) -> Occupant {
    if row == 0 {
        Occupant::Computer
    } else if row == 2 {
        Occupant::Player
    } else {
        Occupant::Empty
    }
}

/// Whether a piece at (`column`, `row`) may advance: the cell in front of it,
/// or one of the two diagonally in front of it, exists and is empty.
pub open spec fn opens_forward(cells: Seq<Cell>, column: int, row: int) -> bool {
    &&& row >= 1
    &&& {
        ||| occupant_at(cells, column, row - 1) is Empty
        ||| (column + 1 < BOARD_SIZE && occupant_at(cells, column + 1, row - 1) is Empty)
        ||| (column >= 1 && occupant_at(cells, column - 1, row - 1) is Empty)
    }
}

/// The move candidates of a selection. Each of the three cells in front
/// opens the same destination: the cell straight ahead.
pub open spec fn candidates(cells: Seq<Cell>, selected: Option<Cell>) -> Seq<Pos> {
    match selected {
        Some(s) => if opens_forward(cells, s.column as int, s.row as int) {
            seq![Pos { column: s.column, row: (s.row - 1) as u16 }]
        } else {
            seq![]
        },
        None => seq![],
    }
}

/// Whether the cell at index `i` holds a player piece under the mouse.
pub open spec fn selectable(cells: Seq<Cell>, board_c: int, board_r: int, mouse: Mouse, i: int) -> bool {
    &&& cells[i].occupant is Player
    &&& hits(board_c, board_r, cells[i].column as int, cells[i].row as int, mouse.column as int, mouse.row as int)
}

/// The cell that a click at `mouse` selects: the player piece under the
/// mouse, if there is one.
pub open spec fn selection_for(cells: Seq<Cell>, board_c: int, board_r: int, mouse: Mouse) -> Option<Cell> {
    if exists|i: int| 0 <= i < cells.len() && selectable(cells, board_c, board_r, mouse, i) {
        Some(cells[choose|i: int| 0 <= i < cells.len() && selectable(cells, board_c, board_r, mouse, i)])
    } else {
        None
    }
}

/// The cells after the piece of `src` moves to `dest`.
pub open spec fn cells_after_move(cells: Seq<Cell>, src: Cell, dest: Pos) -> Seq<Cell> {
    cells.update(
        index_of(dest.column as int, dest.row as int),
        Cell { column: dest.column, row: dest.row, occupant: Occupant::Player },
    ).update(
        index_of(src.column as int, src.row as int),
        Cell { column: src.column, row: src.row, occupant: Occupant::Empty },
    )
}

/// Whether a cell list holds exactly one cell per coordinate, in order.
pub open spec fn cells_wf(cells: Seq<Cell>) -> bool {
    &&& cells.len() == BOARD_SIZE * BOARD_SIZE
    &&& forall|i: int|
        0 <= i < cells.len() ==> (#[trigger] cells[i]).column == i / 3 && cells[i].row == i % 3
}

impl Cell {
    /// Left edge of this cell on a board whose left edge is `board_c`.
    pub fn get_start_c(&self, board_c: u16) -> (r: u16)
        requires
            self.column < BOARD_SIZE,
            board_c + 2 * (CELL_WIDTH + CELL_WIDTH_GAP) <= u16::MAX,
        ensures
            r == start_column(self.column as int, board_c as int),
    {
        assert(self.column * (CELL_WIDTH + CELL_WIDTH_GAP) <= 2 * (CELL_WIDTH + CELL_WIDTH_GAP))
            by (nonlinear_arith)
            requires
                self.column < BOARD_SIZE,
                CELL_WIDTH + CELL_WIDTH_GAP == 9,
        ;
        self.column * (CELL_WIDTH + CELL_WIDTH_GAP) + board_c
    }

    /// Top edge of this cell on a board whose top edge is `board_r`.
    pub fn get_start_r(&self, board_r: u16) -> (r: u16)
        requires
            self.row < BOARD_SIZE,
            board_r + 2 * (CELL_HEIGHT + CELL_HEIGHT_GAP) <= u16::MAX,
        ensures
            r == start_row(self.row as int, board_r as int),
    {
        assert(self.row * (CELL_HEIGHT + CELL_HEIGHT_GAP) <= 2 * (CELL_HEIGHT + CELL_HEIGHT_GAP))
            by (nonlinear_arith)
            requires
                self.row < BOARD_SIZE,
                CELL_HEIGHT + CELL_HEIGHT_GAP == 4,
        ;
        self.row * (CELL_HEIGHT + CELL_HEIGHT_GAP) + board_r
    }

    /// Whether `mouse` lies in this cell's inclusive rectangle on `board`.
    pub fn is_clicked(&self, board: &Board, mouse: &Mouse) -> (r: bool)
        requires
            board.wf(),
            self.column < BOARD_SIZE,
            self.row < BOARD_SIZE,
        ensures
            r == hits(
                board.origin_c(),
                board.origin_r(),
                self.column as int,
                self.row as int,
                mouse.column as int,
                mouse.row as int,
            ),
    {
        let c = self.get_start_c(board.get_c());
        let r = self.get_start_r(board.get_r());
        c <= mouse.column && mouse.column <= c + CELL_WIDTH && r <= mouse.row && mouse.row
            <= r + CELL_HEIGHT
    }
}

impl Board {
    /// Left edge of the board on this board's screen.
    pub open spec fn origin_c(&self) -> int {
        origin_column(self.columns as int)
    }

    /// Top edge of the board on this board's screen.
    pub open spec fn origin_r(&self) -> int {
        origin_row(self.rows as int)
    }

    /// The board's structure: nine cells in order, a screen large enough,
    /// a selection that names a player piece of the board, candidates on
    /// the board.
    pub open spec fn wf(&self) -> bool {
        &&& cells_wf(self.cells@)
        &&& self.columns >= MIN_COLUMNS
        &&& self.rows >= MIN_ROWS
        &&& match self.selected_cell {
            Some(s) => {
                &&& s.column < BOARD_SIZE
                &&& s.row < BOARD_SIZE
                &&& s.occupant is Player
                &&& self.cells@[index_of(s.column as int, s.row as int)] == s
            },
            None => true,
        }
        &&& forall|k: int|
            0 <= k < self.move_cells@.len() ==> (#[trigger] self.move_cells@[k]).column < BOARD_SIZE
                && self.move_cells@[k].row < BOARD_SIZE
    }

    /// A well-formed board whose move candidates are those of its selection.
    pub open spec fn settled(&self) -> bool {
        &&& self.wf()
        &&& self.move_cells@ == candidates(self.cells@, self.selected_cell)
    }

    /// Left edge of the board on the screen.
    pub fn get_c(&self) -> (r: u16)
        requires
            self.columns >= MIN_COLUMNS,
        ensures
            r == self.origin_c(),
            r + 2 * (CELL_WIDTH + CELL_WIDTH_GAP) + CELL_WIDTH <= u16::MAX,
    {
        board_origin_column(self.columns)
    }

    /// Top edge of the board on the screen.
    pub fn get_r(&self) -> (r: u16)
        requires
            self.rows >= MIN_ROWS,
        ensures
            r == self.origin_r(),
            r + 2 * (CELL_HEIGHT + CELL_HEIGHT_GAP) + CELL_HEIGHT <= u16::MAX,
    {
        board_origin_row(self.rows)
    }
}


/// The first candidate under the mouse, if any.
pub open spec fn candidate_under(moves: Seq<Pos>, board_c: int, board_r: int, mouse: Mouse) -> Option<Pos> {
    if exists|k: int| 0 <= k < moves.len() && #[trigger] hits(board_c, board_r, moves[k].column as int, moves[k].row as int, mouse.column as int, mouse.row as int) {
        Some(moves[choose|k: int| 0 <= k < moves.len() && #[trigger] hits(board_c, board_r, moves[k].column as int, moves[k].row as int, mouse.column as int, mouse.row as int)])
    } else {
        None
    }
}

impl Board {
    /// A board on a screen of `columns` × `rows` with the initial layout:
    /// computer pieces on row 0, player pieces on row 2, row 1 empty; nothing
    /// selected, no candidates, running. Fails when the screen is smaller
    /// than `MIN_COLUMNS` × `MIN_ROWS`.
    pub fn new(columns: u16, rows: u16) -> (r: Result<Board, ConfigError>)
        ensures
            r is Err <==> columns < MIN_COLUMNS || rows < MIN_ROWS,
            r is Err ==> r == Err::<Board, ConfigError>(ConfigError::ScreenTooSmall),
            r matches Ok(b) ==> {
                &&& b.settled()
                &&& forall|i: int| 0 <= i < 9 ==> (#[trigger] b.cells@[i]).occupant == initial_occupant(i % 3)
                &&& b.selected_cell is None
                &&& b.move_cells@ == Seq::<Pos>::empty()
                &&& b.running
                &&& b.columns == columns
                &&& b.rows == rows
            },
    {
        if columns < MIN_COLUMNS || rows < MIN_ROWS {
            return Err(ConfigError::ScreenTooSmall);
        }
        let mut cells: Vec<Cell> = Vec::new();
        let mut c: u16 = 0;
        while c < BOARD_SIZE
            invariant
                0 <= c <= BOARD_SIZE,
                cells@.len() == c * 3,
                forall|i: int| 0 <= i < cells@.len() ==> {
                    &&& (#[trigger] cells@[i]).column == i / 3
                    &&& cells@[i].row == i % 3
                    &&& cells@[i].occupant == initial_occupant(i % 3)
                },
            decreases BOARD_SIZE - c,
        {
            let mut r: u16 = 0;
            while r < BOARD_SIZE
                invariant
                    0 <= c < BOARD_SIZE,
                    0 <= r <= BOARD_SIZE,
                    cells@.len() == c * 3 + r,
                    forall|i: int| 0 <= i < cells@.len() ==> {
                        &&& (#[trigger] cells@[i]).column == i / 3
                        &&& cells@[i].row == i % 3
                        &&& cells@[i].occupant == initial_occupant(i % 3)
                    },
                decreases BOARD_SIZE - r,
            {
                let occupant = if r == 0 {
                    Occupant::Computer
                } else if r == 2 {
                    Occupant::Player
                } else {
                    Occupant::Empty
                };
                cells.push(Cell { column: c, row: r, occupant });
                r += 1;
            }
            c += 1;
        }
        Ok(Board { cells, selected_cell: None, move_cells: Vec::new(), running: true, columns, rows })
    }

    /// Occupant of the cell at (`column`, `row`).
    pub fn occupant(&self, column: u16, row: u16) -> (r: Occupant)
        requires
            cells_wf(self.cells@),
            column < BOARD_SIZE,
            row < BOARD_SIZE,
        ensures
            r == occupant_at(self.cells@, column as int, row as int),
    {
        self.cells[(column * BOARD_SIZE + row) as usize].occupant
    }

    /// Index of the first player piece under the mouse.
    fn find_selectable(&self, mouse: &Mouse) -> (r: Option<usize>)
        requires
            self.wf(),
        ensures
            r matches Some(i) ==> i < self.cells@.len() && selectable(self.cells@, self.origin_c(), self.origin_r(), *mouse, i as int),
            r is None ==> forall|i: int| 0 <= i < self.cells@.len() ==> !selectable(self.cells@, self.origin_c(), self.origin_r(), *mouse, i),
    {
        let mut i: usize = 0;
        while i < self.cells.len()
            invariant
                self.wf(),
                0 <= i <= self.cells@.len(),
                forall|j: int| 0 <= j < i ==> !selectable(self.cells@, self.origin_c(), self.origin_r(), *mouse, j),
            decreases self.cells@.len() - i,
        {
            let cell = self.cells[i];
            assert(cell.column == i / 3 && cell.row == i % 3);
            if cell.occupant == Occupant::Player && cell.is_clicked(self, mouse) {
                return Some(i);
            }
            i += 1;
        }
        None
    }

    /// Selects the player piece under the mouse, or clears the selection
    /// when there is none. Occupancy and candidates are left as they are.
    pub fn update_selected(&mut self, mouse: &Mouse)
        requires
            old(self).wf(),
        ensures
            final(self).wf(),
            final(self).selected_cell == selection_for(old(self).cells@, old(self).origin_c(), old(self).origin_r(), *mouse),
            final(self).cells@ == old(self).cells@,
            final(self).move_cells@ == old(self).move_cells@,
            final(self).running == old(self).running,
            final(self).columns == old(self).columns,
            final(self).rows == old(self).rows,
    {
        let found = self.find_selectable(mouse);
        let ghost cells = self.cells@;
        let ghost oc = self.origin_c();
        let ghost or = self.origin_r();
        match found {
            Some(i) => {
                proof {
                    let k = choose|k: int| 0 <= k < cells.len() && selectable(cells, oc, or, *mouse, k);
                    lemma_hit_unique(oc, or, cells[k].column as int, cells[k].row as int, cells[i as int].column as int, cells[i as int].row as int, mouse.column as int, mouse.row as int);
                    assert(cells[k].column == k / 3 && cells[k].row == k % 3);
                    assert(cells[i as int].column == i / 3 && cells[i as int].row == i % 3);
                    assert(k == i);
                }
                self.selected_cell = Some(self.cells[i]);
            },
            None => {
                self.selected_cell = None;
            },
        }
    }
}


/// An input event, as the event loop hands it over.
#[derive(Clone, Copy, Debug, PartialEq, Eq, Structural)]
pub enum InputEvent {
    /// The left mouse button went down at a screen position.
    MouseDown(Mouse),
    /// A key was pressed.
    KeyPress(char),
    /// The terminal now has this many columns and rows.
    Resize(u16, u16),
    /// Anything else; ignored.
    Other,
}

/// The key that ends the game.
pub const QUIT_KEY: char = 'q';

/// Whether two boards agree in everything but `running`.
pub open spec fn same_board(a: &Board, b: &Board) -> bool {
    &&& a.cells@ == b.cells@
    &&& a.selected_cell == b.selected_cell
    &&& a.move_cells@ == b.move_cells@
    &&& a.columns == b.columns
    &&& a.rows == b.rows
}

impl Board {
    /// Recomputes the move candidates of the selection: the cell straight
    /// ahead (one row toward row 0), once, when the cell in front or one of
    /// the two diagonally in front exists and is empty; none otherwise.
    pub fn update_move(&mut self)
        requires
            old(self).wf(),
        ensures
            final(self).settled(),
            final(self).cells@ == old(self).cells@,
            final(self).selected_cell == old(self).selected_cell,
            final(self).running == old(self).running,
            final(self).columns == old(self).columns,
            final(self).rows == old(self).rows,
    {
        self.move_cells = Vec::new();
        if let Some(cell) = self.selected_cell {
            let column = cell.column;
            let row = cell.row;
            if row >= 1 {
                let front = self.occupant(column, row - 1) == Occupant::Empty;
                let right = column + 1 < BOARD_SIZE && self.occupant(column + 1, row - 1)
                    == Occupant::Empty;
                let left = column >= 1 && self.occupant(column - 1, row - 1) == Occupant::Empty;
                if front || right || left {
                    self.move_cells.push(Pos { column, row: row - 1 });
                }
            }
        }
        assert(self.move_cells@ =~= candidates(self.cells@, self.selected_cell));
    }

    /// Whether `dest` is one of the move candidates.
    fn is_candidate(&self, dest: &Pos) -> (r: bool)
        ensures
            r == self.move_cells@.contains(*dest),
    {
        let mut i: usize = 0;
        while i < self.move_cells.len()
            invariant
                0 <= i <= self.move_cells@.len(),
                forall|j: int| 0 <= j < i ==> self.move_cells@[j] != *dest,
            decreases self.move_cells@.len() - i,
        {
            if self.move_cells[i] == *dest {
                return true;
            }
            i += 1;
        }
        false
    }

    /// Moves the selected piece to `dest`: `dest` becomes a player piece,
    /// the selected cell becomes empty, selection and candidates are
    /// cleared. Fails, changing nothing, with `NoSelection` when nothing is
    /// selected and otherwise with `NotACandidate` when `dest` is not a move
    /// candidate.
    pub fn update_cells(&mut self, dest: Pos) -> (r: Result<(), MoveError>)
        requires
            old(self).wf(),
        ensures
            final(self).wf(),
            final(self).running == old(self).running,
            final(self).columns == old(self).columns,
            final(self).rows == old(self).rows,
            old(self).selected_cell is None ==> r == Err::<(), MoveError>(MoveError::NoSelection),
            old(self).selected_cell is Some && !old(self).move_cells@.contains(dest) ==> r == Err::<(), MoveError>(MoveError::NotACandidate),
            r is Err ==> same_board(final(self), old(self)),
            old(self).selected_cell is Some && old(self).move_cells@.contains(dest) ==> {
                &&& r is Ok
                &&& final(self).cells@ == cells_after_move(old(self).cells@, old(self).selected_cell->Some_0, dest)
                &&& final(self).selected_cell is None
                &&& final(self).move_cells@ == Seq::<Pos>::empty()
            },
    {
        let src = match self.selected_cell {
            Some(s) => s,
            None => {
                return Err(MoveError::NoSelection);
            },
        };
        if !self.is_candidate(&dest) {
            return Err(MoveError::NotACandidate);
        }
        proof {
            let k = choose|k: int| 0 <= k < self.move_cells@.len() && self.move_cells@[k] == dest;
            assert(self.move_cells@[k].column < BOARD_SIZE);
        }
        let ghost before = self.cells@;
        let di = (dest.column * BOARD_SIZE + dest.row) as usize;
        let si = (src.column * BOARD_SIZE + src.row) as usize;
        self.cells.set(di, Cell { column: dest.column, row: dest.row, occupant: Occupant::Player });
        self.cells.set(si, Cell { column: src.column, row: src.row, occupant: Occupant::Empty });
        self.selected_cell = None;
        self.move_cells = Vec::new();
        proof {
            assert(self.cells@ == cells_after_move(before, src, dest));
            assert forall|i: int| 0 <= i < self.cells@.len() implies (#[trigger] self.cells@[i]).column == i / 3 && self.cells@[i].row == i % 3 by {
                if i == si as int {
                    assert(before[i] == src);
                    assert(i / 3 == src.column && i % 3 == src.row);
                    assert(self.cells@[i] == Cell { column: src.column, row: src.row, occupant: Occupant::Empty });
                } else if i == di as int {
                    assert(i / 3 == dest.column && i % 3 == dest.row);
                    assert(self.cells@[i] == Cell { column: dest.column, row: dest.row, occupant: Occupant::Player });
                } else {
                    assert(self.cells@[i] == before[i]);
                    assert(before[i].column == i / 3 && before[i].row == i % 3);
                }
            }
        }
        Ok(())
    }

    /// Ends the game: `running` becomes false, nothing else changes.
    pub fn quit(&mut self)
        ensures
            !final(self).running,
            same_board(final(self), old(self)),
    {
        self.running = false;
    }

    /// The first move candidate under the mouse.
    fn clicked_candidate(&self, mouse: &Mouse) -> (r: Option<Pos>)
        requires
            self.wf(),
        ensures
            r == candidate_under(self.move_cells@, self.origin_c(), self.origin_r(), *mouse),
    {
        let ghost moves = self.move_cells@;
        let ghost oc = self.origin_c();
        let ghost or = self.origin_r();
        let mut i: usize = 0;
        while i < self.move_cells.len()
            invariant
                self.wf(),
                0 <= i <= moves.len(),
                moves == self.move_cells@,
                oc == self.origin_c(),
                or == self.origin_r(),
                forall|j: int| 0 <= j < i ==> !#[trigger] hits(oc, or, moves[j].column as int, moves[j].row as int, mouse.column as int, mouse.row as int),
            decreases moves.len() - i,
        {
            let p = self.move_cells[i];
            let cell = Cell { column: p.column, row: p.row, occupant: Occupant::Empty };
            assert(moves[i as int].column < BOARD_SIZE);
            if cell.is_clicked(self, mouse) {
                proof {
                    let k = choose|k: int| 0 <= k < moves.len() && #[trigger] hits(oc, or, moves[k].column as int, moves[k].row as int, mouse.column as int, mouse.row as int);
                    assert(moves[k].column < BOARD_SIZE);
                    lemma_hit_unique(oc, or, moves[k].column as int, moves[k].row as int, p.column as int, p.row as int, mouse.column as int, mouse.row as int);
                }
                return Some(p);
            }
            i += 1;
        }
        None
    }
}

/// Handles a click: on a move candidate, moves the selected piece there;
/// anywhere else, selects the player piece under the mouse (or clears the
/// selection) and recomputes the candidates.
pub fn when_clicked(board: &mut Board, mouse: Mouse)
    requires
        old(board).settled(),
    ensures
        final(board).settled(),
        final(board).running == old(board).running,
        final(board).columns == old(board).columns,
        final(board).rows == old(board).rows,
        match candidate_under(old(board).move_cells@, old(board).origin_c(), old(board).origin_r(), mouse) {
            Some(p) => {
                &&& final(board).cells@ == cells_after_move(old(board).cells@, old(board).selected_cell->Some_0, p)
                &&& final(board).selected_cell is None
            },
            None => {
                &&& final(board).cells@ == old(board).cells@
                &&& final(board).selected_cell == selection_for(old(board).cells@, old(board).origin_c(), old(board).origin_r(), mouse)
            },
        },
{
    match board.clicked_candidate(&mouse) {
        Some(p) => {
            proof {
                let moves = board.move_cells@;
                let k = choose|k: int| 0 <= k < moves.len() && #[trigger] hits(board.origin_c(), board.origin_r(), moves[k].column as int, moves[k].row as int, mouse.column as int, mouse.row as int);
                assert(moves.contains(p));
            }
            let _ = board.update_cells(p);
        },
        None => {
            board.update_selected(&mouse);
            board.update_move();
        },
    }
}

impl Board {
    /// Advances the state machine by one event and says whether the board
    /// must be redrawn. Once the game is no longer running, no event changes
    /// anything. A left click is handled by `when_clicked`; the quit key
    /// stops the game; a resize to a screen of at least `MIN_COLUMNS` ×
    /// `MIN_ROWS` moves the board to the new screen's centre (a smaller one
    /// is ignored); every other event is ignored.
    pub fn handle_event(&mut self, event: InputEvent) -> (redraw: bool)
        requires
            old(self).settled(),
        ensures
            final(self).settled(),
            !old(self).running ==> !redraw && same_board(final(self), old(self)) && !final(self).running,
            old(self).running ==> match event {
                InputEvent::MouseDown(m) => {
                    &&& redraw
                    &&& final(self).running
                    &&& final(self).columns == old(self).columns
                    &&& final(self).rows == old(self).rows
                    &&& match candidate_under(old(self).move_cells@, old(self).origin_c(), old(self).origin_r(), m) {
                        Some(p) => {
                            &&& final(self).cells@ == cells_after_move(old(self).cells@, old(self).selected_cell->Some_0, p)
                            &&& final(self).selected_cell is None
                        },
                        None => {
                            &&& final(self).cells@ == old(self).cells@
                            &&& final(self).selected_cell == selection_for(old(self).cells@, old(self).origin_c(), old(self).origin_r(), m)
                        },
                    }
                },
                InputEvent::KeyPress(c) => {
                    &&& !redraw
                    &&& same_board(final(self), old(self))
                    &&& final(self).running == (c != QUIT_KEY)
                },
                InputEvent::Resize(c, r) => {
                    &&& redraw == (c >= MIN_COLUMNS && r >= MIN_ROWS)
                    &&& final(self).running
                    &&& final(self).cells@ == old(self).cells@
                    &&& final(self).selected_cell == old(self).selected_cell
                    &&& final(self).move_cells@ == old(self).move_cells@
                    &&& final(self).columns == if redraw { c } else { old(self).columns }
                    &&& final(self).rows == if redraw { r } else { old(self).rows }
                },
                InputEvent::Other => !redraw && same_board(final(self), old(self)) && final(self).running,
            },
    {
        if !self.running {
            return false;
        }
        match event {
            InputEvent::MouseDown(m) => {
                when_clicked(self, m);
                true
            },
            InputEvent::KeyPress(c) => {
                if c == QUIT_KEY {
                    self.quit();
                }
                false
            },
            InputEvent::Resize(c, r) => {
                if c >= MIN_COLUMNS && r >= MIN_ROWS {
                    self.columns = c;
                    self.rows = r;
                    true
                } else {
                    false
                }
            },
            InputEvent::Other => false,
        }
    }
}

} // verus!

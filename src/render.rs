//! Turning a board into the paint instructions of one frame.
use vstd::prelude::*;
use crate::board::{Board, Cell, Occupant};
use crate::geometry::{start_column, start_row, Pos, BOARD_SIZE, CELL_HEIGHT, CELL_WIDTH};

verus! {

/// The colour a screen point is painted with.
#[derive(Clone, Copy, Debug, PartialEq, Eq, Structural)]
pub enum Tint {
    Computer,
    Player,
    Empty,
    Selected,
    Move,
}

/// One screen point to paint with a tint.
#[derive(Clone, Copy, Debug, PartialEq, Eq, Structural)]
pub struct Paint {
    pub column: u16,
    pub row: u16,
    pub tint: Tint,
}

/// The tint of a cell's occupant.
pub open spec fn occupant_tint(o: Occupant) -> Tint {
    match o {
        Occupant::Computer => Tint::Computer,
        Occupant::Empty => Tint::Empty,
        Occupant::Player => Tint::Player,
    }
}

/// The `k`-th point of the rectangle at (`sc`, `sr`), column by column.
pub open spec fn block_point(sc: int, sr: int, tint: Tint, k: int) -> Paint {
    Paint {
        column: (sc + k / (CELL_HEIGHT as int)) as u16,
        row: (sr + k % (CELL_HEIGHT as int)) as u16,
        tint,
    }
}

/// Every point of the rectangle at (`sc`, `sr`), column by column.
pub open spec fn block_paints(sc: int, sr: int, tint: Tint) -> Seq<Paint> {
    Seq::new((CELL_WIDTH * CELL_HEIGHT) as nat, |k: int| block_point(sc, sr, tint, k))
}

/// The four corner points of the rectangle at (`sc`, `sr`).
pub open spec fn corner_paints(sc: int, sr: int, tint: Tint) -> Seq<Paint> {
    seq![
        Paint { column: sc as u16, row: sr as u16, tint },
        Paint { column: sc as u16, row: (sr + CELL_HEIGHT - 1) as u16, tint },
        Paint { column: (sc + CELL_WIDTH - 1) as u16, row: sr as u16, tint },
        Paint { column: (sc + CELL_WIDTH - 1) as u16, row: (sr + CELL_HEIGHT - 1) as u16, tint },
    ]
}

/// The paints of the cell at `p` in tint `tint`: its four corners for a move
/// marker, its whole rectangle otherwise.
pub open spec fn cell_paints(board_c: int, board_r: int, p: Pos, tint: Tint) -> Seq<Paint> {
    let sc = start_column(p.column as int, board_c);
    let sr = start_row(p.row as int, board_r);
    if tint is Move {
        corner_paints(sc, sr, tint)
    } else {
        block_paints(sc, sr, tint)
    }
}

/// The paints of a list of layers, in order.
pub open spec fn paints_of(layers: Seq<(Pos, Tint)>, board_c: int, board_r: int) -> Seq<Paint>
    decreases layers.len(),
{
    if layers.len() == 0 {
        seq![]
    } else {
        paints_of(layers.drop_last(), board_c, board_r) + cell_paints(
            board_c,
            board_r,
            layers.last().0,
            layers.last().1,
        )
    }
}

/// What a frame shows, bottom layer first: every cell in its occupant's
/// tint, then the selection, then the move markers.
pub open spec fn frame_layers(b: &Board) -> Seq<(Pos, Tint)> {
    b.cells@.map_values(|c: Cell| (Pos { column: c.column, row: c.row }, occupant_tint(c.occupant)))
        + match b.selected_cell {
        Some(s) => seq![(Pos { column: s.column, row: s.row }, Tint::Selected)],
        None => seq![],
    } + b.move_cells@.map_values(|p: Pos| (p, Tint::Move))
}

/// Whether every layer names a cell of the board.
pub open spec fn layers_on_board(layers: Seq<(Pos, Tint)>) -> bool {
    forall|i: int|
        0 <= i < layers.len() ==> (#[trigger] layers[i]).0.column < BOARD_SIZE && layers[i].0.row
            < BOARD_SIZE
}

impl Cell {
    /// The tint of this cell's occupant.
    pub fn get_color(&self) -> (r: Tint)
        ensures
            r == occupant_tint(self.occupant),
    {
        match self.occupant {
            Occupant::Computer => Tint::Computer,
            Occupant::Empty => Tint::Empty,
            Occupant::Player => Tint::Player,
        }
    }

    /// Appends to `frame` the paints of this cell's position in `tint`:
    /// the four corners for a move marker, the whole rectangle otherwise.
    pub fn draw(&self, board: &Board, tint: Tint, frame: &mut Vec<Paint>)
        requires
            board.wf(),
            self.column < BOARD_SIZE,
            self.row < BOARD_SIZE,
        ensures
            final(frame)@ == old(frame)@ + cell_paints(
                board.origin_c(),
                board.origin_r(),
                Pos { column: self.column, row: self.row },
                tint,
            ),
    {
        let sc = self.get_start_c(board.get_c());
        let sr = self.get_start_r(board.get_r());
        let ghost start = frame@;
        if tint == Tint::Move {
            frame.push(Paint { column: sc, row: sr, tint });
            frame.push(Paint { column: sc, row: sr + CELL_HEIGHT - 1, tint });
            frame.push(Paint { column: sc + CELL_WIDTH - 1, row: sr, tint });
            frame.push(Paint { column: sc + CELL_WIDTH - 1, row: sr + CELL_HEIGHT - 1, tint });
            assert(frame@ =~= start + corner_paints(sc as int, sr as int, tint));
        } else {
            let mut c: u16 = 0;
            while c < CELL_WIDTH
                invariant
                    0 <= c <= CELL_WIDTH,
                    sc + CELL_WIDTH <= u16::MAX,
                    sr + CELL_HEIGHT <= u16::MAX,
                    frame@ =~= start + Seq::new((c * CELL_HEIGHT) as nat, |k: int| block_point(sc as int, sr as int, tint, k)),
                decreases CELL_WIDTH - c,
            {
                let mut r: u16 = 0;
                while r < CELL_HEIGHT
                    invariant
                        0 <= c < CELL_WIDTH,
                        0 <= r <= CELL_HEIGHT,
                        sc + CELL_WIDTH <= u16::MAX,
                        sr + CELL_HEIGHT <= u16::MAX,
                        frame@ =~= start + Seq::new((c * CELL_HEIGHT + r) as nat, |k: int| block_point(sc as int, sr as int, tint, k)),
                    decreases CELL_HEIGHT - r,
                {
                    let ghost n = (c * CELL_HEIGHT + r) as int;
                    assert(n / (CELL_HEIGHT as int) == c && n % (CELL_HEIGHT as int) == r);
                    assert(block_point(sc as int, sr as int, tint, n) == Paint { column: (sc + c) as u16, row: (sr + r) as u16, tint });
                    frame.push(Paint { column: sc + c, row: sr + r, tint });
                    assert(frame@ =~= start + Seq::new((n + 1) as nat, |k: int| block_point(sc as int, sr as int, tint, k)));
                    r += 1;
                }
                c += 1;
            }
            assert(frame@ =~= start + block_paints(sc as int, sr as int, tint));
        }
    }
}

impl Board {
    /// The layers of the current frame, bottom first.
    fn layers(&self) -> (r: Vec<(Pos, Tint)>)
        requires
            self.wf(),
        ensures
            r@ == frame_layers(self),
            layers_on_board(r@),
    {
        let mut layers: Vec<(Pos, Tint)> = Vec::new();
        let mut i: usize = 0;
        while i < self.cells.len()
            invariant
                self.wf(),
                0 <= i <= self.cells@.len(),
                layers@ =~= self.cells@.take(i as int).map_values(
                    |c: Cell| (Pos { column: c.column, row: c.row }, occupant_tint(c.occupant)),
                ),
                layers_on_board(layers@),
            decreases self.cells@.len() - i,
        {
            let c = self.cells[i];
            layers.push((Pos { column: c.column, row: c.row }, c.get_color()));
            assert(self.cells@.take(i + 1) =~= self.cells@.take(i as int).push(c));
            i += 1;
        }
        assert(self.cells@.take(i as int) =~= self.cells@);
        let ghost base = layers@;
        if let Some(s) = self.selected_cell {
            layers.push((Pos { column: s.column, row: s.row }, Tint::Selected));
        }
        let ghost mid = layers@;
        let mut j: usize = 0;
        while j < self.move_cells.len()
            invariant
                self.wf(),
                0 <= j <= self.move_cells@.len(),
                layers@ =~= mid + self.move_cells@.take(j as int).map_values(|p: Pos| (p, Tint::Move)),
                layers_on_board(layers@),
            decreases self.move_cells@.len() - j,
        {
            let p = self.move_cells[j];
            layers.push((p, Tint::Move));
            assert(self.move_cells@.take(j + 1) =~= self.move_cells@.take(j as int).push(p));
            j += 1;
        }
        assert(self.move_cells@.take(j as int) =~= self.move_cells@);
        assert(layers@ =~= frame_layers(self));
        layers
    }

    /// The paint instructions of one frame: every cell in its occupant's
    /// tint, then the selected cell in the selection tint, then the corners
    /// of each move candidate in the move tint.
    pub fn draw(&self) -> (r: Vec<Paint>)
        requires
            self.wf(),
        ensures
            r@ == paints_of(frame_layers(self), self.origin_c(), self.origin_r()),
    {
        let layers = self.layers();
        let mut frame: Vec<Paint> = Vec::new();
        let mut i: usize = 0;
        while i < layers.len()
            invariant
                self.wf(),
                0 <= i <= layers@.len(),
                layers_on_board(layers@),
                frame@ == paints_of(layers@.take(i as int), self.origin_c(), self.origin_r()),
            decreases layers@.len() - i,
        {
            let (p, tint) = layers[i];
            let cell = Cell { column: p.column, row: p.row, occupant: Occupant::Empty };
            assert(layers@[i as int].0.column < BOARD_SIZE);
            cell.draw(self, tint, &mut frame);
            assert(layers@.take(i + 1).drop_last() =~= layers@.take(i as int));
            i += 1;
        }
        assert(layers@.take(i as int) =~= layers@);
        frame
    }
}

} // verus!

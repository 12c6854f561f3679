use vstd::prelude::*;

use crate::board::{board_frame, place_model, placeable, update_model, Board};
use crate::geometry::{pt, Point, Shape};
use crate::settings::{NUM_OF_POINTS, ORIGIN_LIMIT};
use crate::stone::{Stone, StoneType};

verus! {

/// The colour that plays after `kind`.
pub open spec fn other(kind: StoneType) -> StoneType {
    match kind {
        StoneType::BLACK => StoneType::WHITE,
        StoneType::WHITE => StoneType::BLACK,
    }
}

/// The pointer shape that the window should show.
#[derive(Clone, Copy, Debug, PartialEq, Eq, Structural)]
pub enum CursorShape {
    /// Over a placeable intersection.
    Hand,
    /// Anywhere else.
    Arrow,
}

/// A board and the colour of the next stone; black moves first.
pub struct Game {
    board: Board,
    next_stone_type: StoneType,
}

impl Game {
    pub closed spec fn board(self) -> Board {
        self.board
    }

    pub closed spec fn next_kind(self) -> StoneType {
        self.next_stone_type
    }

    pub open spec fn wf(self) -> bool {
        self.board().wf()
    }

    /// A game on an empty board whose intersection `(0, 0)` is at `board_pos`.
    pub fn new(board_pos: [i64; 2]) -> (g: Game)
        requires
            pt(board_pos@[0] as int, board_pos@[1] as int).within(ORIGIN_LIMIT as int),
        ensures
            g.wf(),
            g.board().origin() == (Point { x: board_pos@[0], y: board_pos@[1] }),
            g.board().cells() == Seq::new((NUM_OF_POINTS * NUM_OF_POINTS) as nat, |k: int| None::<Stone>),
            g.next_kind() == StoneType::BLACK,
    {
        Game { board: Board::new(board_pos[0], board_pos[1]), next_stone_type: StoneType::BLACK }
    }

    /// The board.
    pub fn get_board(&self) -> (b: &Board)
        ensures
            *b == self.board(),
    {
        &self.board
    }

    /// The colour of the next stone.
    pub fn next_stone_type(&self) -> (k: StoneType)
        ensures
            k == self.next_kind(),
    {
        self.next_stone_type
    }

    /// Places the next colour's stone at a pointer at `(pos_x, pos_y)` (see
    /// `Board::place_a_stone`); the turn passes to the other colour either way.
    pub fn place_a_stone(&mut self, pos_x: i64, pos_y: i64)
        requires
            old(self).wf(),
        ensures
            final(self).wf(),
            final(self).next_kind() == other(old(self).next_kind()),
            final(self).board().origin() == old(self).board().origin(),
            final(self).board().cells() == place_model(
                old(self).board().origin(),
                old(self).board().cells(),
                pos_x as int,
                pos_y as int,
                old(self).next_kind(),
            ),
    {
        let next_type = self.next_stone_type;
        self.next_stone_type = match next_type {
            StoneType::BLACK => StoneType::WHITE,
            StoneType::WHITE => StoneType::BLACK,
        };
        self.board.place_a_stone(pos_x, pos_y, next_type);
    }

    /// Whether a stone can go where a pointer at `(pos_x, pos_y)` is.
    pub fn is_placeable(&self, pos_x: i64, pos_y: i64) -> (b: bool)
        requires
            self.wf(),
        ensures
            b == placeable(self.board().origin(), self.board().cells(), pos_x as int, pos_y as int),
    {
        self.board.is_placeable(pos_x, pos_y)
    }

    /// The pointer shape for a pointer at `(pos_x, pos_y)`: a hand exactly where a
    /// stone can go.
    pub fn cursor(&self, pos_x: i64, pos_y: i64) -> (c: CursorShape)
        requires
            self.wf(),
        ensures
            c == if placeable(self.board().origin(), self.board().cells(), pos_x as int, pos_y as int) {
                CursorShape::Hand
            } else {
                CursorShape::Arrow
            },
    {
        if self.board.is_placeable(pos_x, pos_y) {
            CursorShape::Hand
        } else {
            CursorShape::Arrow
        }
    }

    /// Advances every animation on the board by one frame of `delta` microseconds.
    pub fn update(&mut self, delta: u64)
        requires
            old(self).wf(),
        ensures
            final(self).wf(),
            final(self).next_kind() == old(self).next_kind(),
            final(self).board().origin() == old(self).board().origin(),
            final(self).board().cells() == update_model(old(self).board().cells(), delta as int),
    {
        self.board.update(delta);
    }

    /// Appends a whole frame of the board to a draw list.
    pub fn draw(&self, out: &mut Vec<Shape>)
        requires
            self.wf(),
        ensures
            final(out)@ == old(out)@ + board_frame(self.board().origin(), self.board().cells()),
    {
        self.board.draw(out);
    }
}

} // verus!

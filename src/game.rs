//! The game played by both sides in one process.
use vstd::prelude::*;
use crate::board::{
    apply_move, cell, check_win, col_of, empty_field, in_range, is_empty_field, row_of, updated,
    wins, Field, MoveError, Square,
};

verus! {

/// The mark of the side to move: `Maru` when `first` holds.
pub open spec fn mark_of(first: bool) -> Square {
    if first {
        Square::Maru
    } else {
        Square::Batu
    }
}

/// A local game: the board and whether the first side (`Maru`) is to move.
pub struct Game {
    pub field: Field,
    pub turn: bool,
}

impl Game {
    /// An empty board with `Maru` to move.
    pub fn new() -> (g: Game)
        ensures
            is_empty_field(g.field),
            g.turn,
    {
        Game { field: empty_field(), turn: true }
    }

    pub fn field(&self) -> (r: &Field)
        ensures
            *r == self.field,
    {
        &self.field
    }

    /// The mark of the side to move.
    pub fn turn_square(&self) -> (s: Square)
        ensures
            s == mark_of(self.turn),
    {
        if self.turn {
            Square::Maru
        } else {
            Square::Batu
        }
    }

    /// Places the mark of the side to move at `num`; the side to move stays.
    pub fn turn(&mut self, num: usize) -> (r: Result<(), MoveError>)
        ensures
            final(self).turn == old(self).turn,
            r == Err::<(), MoveError>(MoveError::OutOfRange) <==> !in_range(num as int),
            r == Err::<(), MoveError>(MoveError::Occupied) <==> in_range(num as int) && cell(
                old(self).field,
                row_of(num as int),
                col_of(num as int),
            ) is Some,
            r is Ok ==> updated(
                old(self).field,
                final(self).field,
                row_of(num as int),
                col_of(num as int),
                Some(mark_of(old(self).turn)),
            ),
            r is Err ==> final(self).field == old(self).field,
    {
        let m = self.turn_square();
        apply_move(&mut self.field, num, m)
    }

    /// Whether the side to move holds a full line.
    pub fn check(&self) -> (r: bool)
        ensures
            r == wins(self.field, mark_of(self.turn)),
    {
        check_win(&self.field, self.turn_square())
    }

    /// One round of the game: places the mark of the side to move at `num`.
    /// `Ok(true)` means that move won, and the winner stays the side to move;
    /// `Ok(false)` means it did not, and the other side is now to move. A
    /// refused move changes nothing, so the same side tries again.
    pub fn play(&mut self, num: usize) -> (r: Result<bool, MoveError>)
        ensures
            r == Err::<bool, MoveError>(MoveError::OutOfRange) <==> !in_range(num as int),
            r == Err::<bool, MoveError>(MoveError::Occupied) <==> in_range(num as int) && cell(
                old(self).field,
                row_of(num as int),
                col_of(num as int),
            ) is Some,
            r is Err ==> *final(self) == *old(self),
            r is Ok ==> updated(
                old(self).field,
                final(self).field,
                row_of(num as int),
                col_of(num as int),
                Some(mark_of(old(self).turn)),
            ),
            r is Ok ==> r == Ok::<bool, MoveError>(wins(final(self).field, mark_of(old(self).turn))),
            r == Ok::<bool, MoveError>(true) ==> final(self).turn == old(self).turn,
            r == Ok::<bool, MoveError>(false) ==> final(self).turn == !old(self).turn,
    {
        match self.turn(num) {
            Err(e) => Err(e),
            Ok(()) => {
                if self.check() {
                    Ok(true)
                } else {
                    self.turn = !self.turn;
                    Ok(false)
                }
            },
        }
    }
}

} // verus!

//! The board, move application and win detection.
use vstd::prelude::*;

verus! {

/// One of the two marks a player places on the board.
#[derive(Clone, Copy, Debug, PartialEq, Eq, Structural)]
pub enum Square {
    Maru,
    Batu,
}

/// A 3×3 grid of cells, indexed `[row][col]`; `None` is an empty cell.
pub type Field = [[Option<Square>; 3]; 3];

/// Why a move was refused.
#[derive(Clone, Copy, Debug, PartialEq, Eq, Structural)]
pub enum MoveError {
    /// The position is not in `1..=9`.
    OutOfRange,
    /// The cell at the position already holds a mark.
    Occupied,
}

/// The cell at `(r, c)`.
pub open spec fn cell(f: Field, r: int, c: int) -> Option<Square> {
    f@[r]@[c]
}

/// A position in `1..=9`.
pub open spec fn in_range(pos: int) -> bool {
    1 <= pos <= 9
}

/// Row of a 1-based, row-major position.
pub open spec fn row_of(pos: int) -> int {
    (pos - 1) / 3
}

/// Column of a 1-based, row-major position.
pub open spec fn col_of(pos: int) -> int {
    (pos - 1) % 3
}

/// Every cell empty.
pub open spec fn is_empty_field(f: Field) -> bool {
    forall|r: int, c: int| 0 <= r < 3 && 0 <= c < 3 ==> #[trigger] cell(f, r, c) is None
}

/// `g` is `f` with the cell at `(r, c)` set to `v`.
pub open spec fn updated(f: Field, g: Field, r: int, c: int, v: Option<Square>) -> bool {
    forall|i: int, j: int|
        0 <= i < 3 && 0 <= j < 3 ==> #[trigger] cell(g, i, j) == if i == r && j == c {
            v
        } else {
            cell(f, i, j)
        }
}

/// The three cells of line `k`: rows `0..3`, columns `3..6`, the main diagonal `6`
/// and the anti-diagonal `7`, as `(row, col)` of cell `i` of the line.
pub open spec fn line_cell(k: int, i: int) -> (int, int) {
    if k < 3 {
        (k, i)
    } else if k < 6 {
        (i, k - 3)
    } else if k == 6 {
        (i, i)
    } else {
        (i, 2 - i)
    }
}

/// Line `k` holds mark `m` in all three of its cells.
pub open spec fn line_full(f: Field, k: int, m: Square) -> bool {
    forall|i: int|
        0 <= i < 3 ==> cell(f, #[trigger] line_cell(k, i).0, line_cell(k, i).1) == Some(m)
}

/// Some one of the eight lines is full of `m`.
pub open spec fn wins(f: Field, m: Square) -> bool {
    exists|k: int| 0 <= k < 8 && #[trigger] line_full(f, k, m)
}

/// A board with every cell empty.
pub fn empty_field() -> (r: Field)
    ensures
        is_empty_field(r),
{
    let r: Field = [[None, None, None], [None, None, None], [None, None, None]];
    assert(is_empty_field(r)) by {
        assert forall|i: int, j: int| 0 <= i < 3 && 0 <= j < 3 implies #[trigger] cell(r, i, j)
            is None by {
            assert(r@[i]@[j] is None);
        }
    }
    r
}

/// Places `m` at the 1-based, row-major position `pos`.
///
/// A position outside `1..=9` gives `OutOfRange` and an occupied cell gives
/// `Occupied`; in both cases the board is left as it was, so a move is never
/// counted without placing a mark.
pub fn apply_move(f: &mut Field, pos: usize, m: Square) -> (r: Result<(), MoveError>)
    ensures
        r == Err::<(), MoveError>(MoveError::OutOfRange) <==> !in_range(pos as int),
        r == Err::<(), MoveError>(MoveError::Occupied) <==> in_range(pos as int) && cell(
            *old(f),
            row_of(pos as int),
            col_of(pos as int),
        ) is Some,
        r is Ok ==> updated(*old(f), *final(f), row_of(pos as int), col_of(pos as int), Some(m)),
        r is Err ==> *final(f) == *old(f),
{
    if pos < 1 || pos > 9 {
        return Err(MoveError::OutOfRange);
    }
    let x: usize = (pos - 1) / 3;
    let y: usize = (pos - 1) % 3;
    if f[x][y].is_some() {
        return Err(MoveError::Occupied);
    }
    let mut row = f[x];
    row.set(y, Some(m));
    f.set(x, row);
    Ok(())
}

/// How many of the cells of line `k` hold `m`.
fn line_count(f: &Field, k: usize, m: Square) -> (n: usize)
    requires
        k < 8,
    ensures
        n <= 3,
        n == 3 <==> line_full(*f, k as int, m),
{
    let mut n: usize = 0;
    let mut i: usize = 0;
    while i < 3
        invariant
            k < 8,
            i <= 3,
            n <= i,
            n == i <==> forall|j: int|
                0 <= j < i ==> cell(*f, #[trigger] line_cell(k as int, j).0, line_cell(k as int, j).1)
                    == Some(m),
        decreases 3 - i,
    {
        let (r, c): (usize, usize) = if k < 3 {
            (k, i)
        } else if k < 6 {
            (i, k - 3)
        } else if k == 6 {
            (i, i)
        } else {
            (i, 2 - i)
        };
        assert((r as int, c as int) == line_cell(k as int, i as int));
        if f[r][c] == Some(m) {
            n = n + 1;
        }
        i = i + 1;
    }
    n
}

/// Whether `m` holds all three cells of some row, column or diagonal.
pub fn check_win(f: &Field, m: Square) -> (r: bool)
    ensures
        r == wins(*f, m),
{
    let mut k: usize = 0;
    while k < 8
        invariant
            k <= 8,
            forall|j: int| 0 <= j < k ==> !#[trigger] line_full(*f, j, m),
        decreases 8 - k,
    {
        if line_count(f, k, m) == 3 {
            return true;
        }
        k = k + 1;
    }
    false
}

/// No mark wins on an empty board.
pub proof fn lemma_empty_field_no_win(f: Field, m: Square)
    requires
        is_empty_field(f),
    ensures
        !wins(f, m),
{
    if wins(f, m) {
        let k = choose|k: int| 0 <= k < 8 && #[trigger] line_full(f, k, m);
        let (r, c) = line_cell(k, 0);
        assert(cell(f, r, c) == Some(m));
    }
}

} // verus!

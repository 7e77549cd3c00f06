use tictactoe::board::{apply_move, check_win, empty_field, Field, MoveError, Square};
use tictactoe::game::Game;

fn occupied(f: &Field) -> usize {
    f.iter().flatten().filter(|c| c.is_some()).count()
}

fn board_with(cells: &[(usize, Square)]) -> Field {
    let mut f = empty_field();
    for &(pos, m) in cells {
        apply_move(&mut f, pos, m).unwrap();
    }
    f
}

#[test]
fn empty_board_has_no_winner() {
    let f = empty_field();
    assert!(!check_win(&f, Square::Maru));
    assert!(!check_win(&f, Square::Batu));
    assert_eq!(occupied(&f), 0);
}

#[test]
fn every_line_wins() {
    let lines = [
        [1, 2, 3],
        [4, 5, 6],
        [7, 8, 9],
        [1, 4, 7],
        [2, 5, 8],
        [3, 6, 9],
        [1, 5, 9],
        [3, 5, 7],
    ];
    for line in lines {
        let f = board_with(&[(line[0], Square::Batu), (line[1], Square::Batu), (line[2], Square::Batu)]);
        assert!(check_win(&f, Square::Batu));
        assert!(!check_win(&f, Square::Maru));
    }
}

#[test]
fn mixed_line_does_not_win() {
    let f = board_with(&[(1, Square::Maru), (2, Square::Batu), (3, Square::Maru), (5, Square::Maru)]);
    assert!(!check_win(&f, Square::Maru));
    assert!(!check_win(&f, Square::Batu));
}

#[test]
fn move_sets_one_cell() {
    let before = board_with(&[(1, Square::Batu)]);
    let mut after = before;
    assert_eq!(apply_move(&mut after, 6, Square::Maru), Ok(()));
    for r in 0..3 {
        for c in 0..3 {
            if (r, c) == (1, 2) {
                assert_eq!(after[r][c], Some(Square::Maru));
            } else {
                assert_eq!(after[r][c], before[r][c]);
            }
        }
    }
}

#[test]
fn out_of_range_moves_are_refused() {
    let before = board_with(&[(5, Square::Maru)]);
    let mut f = before;
    assert_eq!(apply_move(&mut f, 0, Square::Batu), Err(MoveError::OutOfRange));
    assert_eq!(f, before);
    assert_eq!(apply_move(&mut f, 10, Square::Batu), Err(MoveError::OutOfRange));
    assert_eq!(f, before);
}

#[test]
fn occupied_cell_is_refused() {
    let before = board_with(&[(5, Square::Maru)]);
    let mut f = before;
    assert_eq!(apply_move(&mut f, 5, Square::Batu), Err(MoveError::Occupied));
    assert_eq!(f, before);
}

#[test]
fn corner_positions_map_row_major() {
    let f = board_with(&[(1, Square::Maru), (3, Square::Batu), (7, Square::Maru), (9, Square::Batu)]);
    assert_eq!(f[0][0], Some(Square::Maru));
    assert_eq!(f[0][2], Some(Square::Batu));
    assert_eq!(f[2][0], Some(Square::Maru));
    assert_eq!(f[2][2], Some(Square::Batu));
}

#[test]
fn new_game_is_empty_with_maru_to_move() {
    let g = Game::new();
    assert!(g.turn);
    assert_eq!(g.turn_square(), Square::Maru);
    assert_eq!(occupied(g.field()), 0);
}

#[test]
fn turn_flips_after_a_move_that_does_not_win() {
    let mut g = Game::new();
    assert_eq!(g.play(5), Ok(false));
    assert_eq!(g.turn_square(), Square::Batu);
    assert_eq!(g.field[1][1], Some(Square::Maru));
    assert_eq!(g.play(1), Ok(false));
    assert_eq!(g.turn_square(), Square::Maru);
    assert_eq!(g.field[0][0], Some(Square::Batu));
}

#[test]
fn refused_move_keeps_the_turn() {
    let mut g = Game::new();
    assert_eq!(g.play(0), Err(MoveError::OutOfRange));
    assert_eq!(g.play(10), Err(MoveError::OutOfRange));
    assert!(g.turn);
    assert_eq!(g.play(2), Ok(false));
    assert_eq!(g.play(2), Err(MoveError::Occupied));
    assert!(!g.turn);
    assert_eq!(occupied(&g.field), 1);
}

#[test]
fn top_row_of_one_mark_wins() {
    let mut f = empty_field();
    for pos in [1, 2, 3] {
        assert_eq!(apply_move(&mut f, pos, Square::Maru), Ok(()));
    }
    assert!(check_win(&f, Square::Maru));
}

#[test]
fn first_player_wins_on_the_fifth_move() {
    let mut g = Game::new();
    assert_eq!(g.play(1), Ok(false));
    assert_eq!(g.play(5), Ok(false));
    assert_eq!(g.play(2), Ok(false));
    assert_eq!(g.play(6), Ok(false));
    assert_eq!(g.play(3), Ok(true));
    assert!(g.check());
    assert_eq!(g.turn_square(), Square::Maru);
    assert_eq!(occupied(&g.field), 5);
}

#[test]
fn turn_places_without_passing() {
    let mut g = Game::new();
    assert_eq!(g.turn(4), Ok(()));
    assert!(g.turn);
    assert_eq!(g.field[1][0], Some(Square::Maru));
    assert!(!g.check());
}

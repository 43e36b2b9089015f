use std::convert::TryFrom;

use bitboard_xo::XOBoard;
use bitboard_xo::XOPos;
use bitboard_xo::XOPosError;
use bitboard_xo::XOToken;
use bitboard_xo::XO;

#[test]
fn index_accepts_the_nine_cells() {
    for i in 0..9 {
        assert_eq!(XOPos::index(i).unwrap().as_index(), i);
    }
}

#[test]
fn index_rejects_out_of_range() {
    assert_eq!(
        XOPos::index(9).unwrap_err(),
        XOPosError::InvalidXOIndex { index: 9 }
    );
    assert_eq!(
        XOPos::index(100).unwrap_err(),
        XOPosError::InvalidXOIndex { index: 100 }
    );
}

#[test]
fn row_col_uses_row_major_indexing() {
    assert_eq!(XOPos::row_col(0, 0).unwrap().as_index(), 0);
    assert_eq!(XOPos::row_col(0, 2).unwrap().as_index(), 2);
    assert_eq!(XOPos::row_col(1, 0).unwrap().as_index(), 3);
    assert_eq!(XOPos::row_col(1, 2).unwrap().as_index(), 5);
    assert_eq!(XOPos::row_col(2, 1).unwrap().as_index(), 7);
    assert_eq!(XOPos::row_col(2, 2).unwrap().as_index(), 8);
}

#[test]
fn row_col_rejects_bad_row_then_bad_col() {
    assert_eq!(
        XOPos::row_col(3, 0).unwrap_err(),
        XOPosError::InvalidXORow { row: 3 }
    );
    assert_eq!(
        XOPos::row_col(0, 3).unwrap_err(),
        XOPosError::InvalidXOCol { col: 3 }
    );
    // The row is checked first.
    assert_eq!(
        XOPos::row_col(7, 7).unwrap_err(),
        XOPosError::InvalidXORow { row: 7 }
    );
}

#[test]
fn try_from_checks_like_index() {
    assert_eq!(XOPos::try_from(4).unwrap().as_index(), 4);
    assert_eq!(
        XOPos::try_from(9).unwrap_err(),
        XOPosError::InvalidXOIndex { index: 9 }
    );
}

#[test]
fn col_row_swaps_the_arguments() {
    assert_eq!(XOPos::col_row(2, 1).unwrap().as_index(), 5);
    assert_eq!(XOPos::col_row(1, 2).unwrap().as_index(), 7);
    assert_eq!(
        XOPos::col_row(3, 0).unwrap_err(),
        XOPosError::InvalidXOCol { col: 3 }
    );
    assert_eq!(
        XOPos::col_row(0, 3).unwrap_err(),
        XOPosError::InvalidXORow { row: 3 }
    );
}

#[test]
fn render_empty_game() {
    let game = XO::new();
    assert_eq!(game.render(), "X's Turn\n...\n...\n...\n");
}

#[test]
fn render_grid_draws_marks() {
    let board = XOBoard::from_maybe_token_array([
        Some(XOToken::X),
        Some(XOToken::X),
        Some(XOToken::O),
        None,
        Some(XOToken::O),
        None,
        None,
        None,
        Some(XOToken::X),
    ]);
    assert_eq!(board.render_grid(), "XXO\n.O.\n..X\n");
    assert_eq!(board.render(), "X's Turn\nXXO\n.O.\n..X\n");
}

#[test]
fn render_after_o_turn() {
    let board = XOBoard::empty().swap_turn();
    assert_eq!(board.render(), "O's Turn\n...\n...\n...\n");
}

#[test]
fn render_won_game() {
    let mut board = XOBoard::empty();
    for i in [0, 3, 1, 4, 2] {
        board = board.play(XOPos::index(i).unwrap()).unwrap();
    }
    assert_eq!(board.render(), "Game Ended: X's winner\nXXX\nOO.\n...\n");
}

#[test]
fn render_stale_game() {
    let mut board = XOBoard::empty();
    for (row, col) in [
        (0, 0),
        (1, 1),
        (2, 2),
        (0, 2),
        (0, 1),
        (1, 0),
        (2, 0),
        (2, 1),
        (1, 2),
    ] {
        board = board.play(XOPos::row_col(row, col).unwrap()).unwrap();
    }
    assert_eq!(
        board.render(),
        "Game Ended In Stale Mate\nXXO\nOOX\nXOX\n"
    );
}

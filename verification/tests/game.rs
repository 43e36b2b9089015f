use bitboard_xo::XOBoard;
use bitboard_xo::XOError;
use bitboard_xo::XOGameError;
use bitboard_xo::XOPos;
use bitboard_xo::XOPosError;
use bitboard_xo::XOToken;
use bitboard_xo::XOTokenWinState;
use bitboard_xo::XO;

#[test]
fn new_game_starts_empty() {
    let game = XO::new();
    assert_eq!(game.board(), XOBoard::empty());
    assert_eq!(game.turn(), XOToken::X);
    assert_eq!(game.win_state(), None);
}

#[test]
fn play_reports_win_state() {
    /* create game with this configuration:
    X X .
    . O .
    . . .
    */
    let mut game = XO::from_board(
        XOBoard::from_maybe_token_array([
            Some(XOToken::X),
            Some(XOToken::X),
            None,
            None,
            Some(XOToken::O),
            None,
            None,
            None,
            None,
        ])
        .swap_turn(),
    );

    // Try playing at an occupied position.
    assert_eq!(
        game.play(XOPos::row_col(0, 0).unwrap()),
        Err(XOGameError::AlreadyPlayedError { index: 0 })
    );

    // O plays and the game continues.
    assert_eq!(game.turn(), XOToken::O);
    assert_eq!(game.play(XOPos::row_col(1, 0).unwrap()), Ok(None));

    // X plays and wins.
    assert_eq!(game.turn(), XOToken::X);
    assert_eq!(
        game.play(XOPos::row_col(0, 2).unwrap()),
        Ok(Some(XOTokenWinState::X))
    );

    // Try to play after the end.
    assert_eq!(
        game.play(XOPos::row_col(2, 2).unwrap()),
        Err(XOGameError::GameEndedError)
    );
}

#[test]
fn failed_play_changes_nothing() {
    let mut game = XO::new();
    game.play(XOPos::index(4).unwrap()).unwrap();
    let before = game;

    assert_eq!(
        game.play(XOPos::index(4).unwrap()),
        Err(XOGameError::AlreadyPlayedError { index: 4 })
    );
    assert_eq!(game, before);
    assert_eq!(game.turn(), XOToken::O);
}

#[test]
fn swap_turn_swaps() {
    let mut game = XO::new();
    assert_eq!(game.turn(), XOToken::X);

    game.swap_turn();
    assert_eq!(game.turn(), XOToken::O);
}

#[test]
fn play_flips_turn() {
    let mut game = XO::new();
    assert_eq!(game.turn(), XOToken::X);

    game.play(XOPos::row_col(1, 1).unwrap()).unwrap();
    assert_eq!(game.turn(), XOToken::O);
}

#[test]
fn reset_restores_the_fresh_game() {
    let mut game = XO::new();

    game.play(XOPos::row_col(1, 1).unwrap()).unwrap();
    assert_ne!(game, XO::new());
    assert_ne!(game.board(), XOBoard::empty());

    game.reset();
    assert_eq!(game, XO::new());
    assert_eq!(game.board(), XOBoard::empty());
}

#[test]
fn iter_walks_the_wrapped_board() {
    let arr = [
        Some(XOToken::X),
        Some(XOToken::X),
        Some(XOToken::O),
        None,
        None,
        None,
        None,
        None,
        None,
    ];
    let game = XO::from_board(XOBoard::from_maybe_token_array(arr));
    let mut iter = game.iter();
    for expected in arr {
        assert_eq!(iter.next(), Some(expected));
    }
    assert_eq!(iter.next(), None);
}

#[test]
fn board_mut_replaces_the_held_board() {
    let mut game = XO::new();
    game.play(XOPos::index(0).unwrap()).unwrap();

    *game.board_mut() = XOBoard::empty();
    assert_eq!(game, XO::new());
}

#[test]
fn default_and_from_conversions() {
    assert_eq!(XO::default(), XO::new());

    let board = XOBoard::from_maybe_token_array([
        Some(XOToken::O),
        None,
        None,
        None,
        None,
        None,
        None,
        None,
        None,
    ]);
    assert_eq!(XO::from(board), XO::from_board(board));
    assert_eq!(XO::from(board).board(), board);

    assert_eq!(XOTokenWinState::from(XOToken::X), XOTokenWinState::X);
    assert_eq!(XOTokenWinState::from(XOToken::O), XOTokenWinState::O);

    assert_eq!(
        XOError::from(XOPosError::InvalidXOIndex { index: 9 }),
        XOError::PositionError {
            source: XOPosError::InvalidXOIndex { index: 9 }
        }
    );
    assert_eq!(
        XOError::from(XOGameError::GameEndedError),
        XOError::GameError {
            source: XOGameError::GameEndedError
        }
    );
}

#[test]
fn opposite_token_swaps_players() {
    assert_eq!(XOToken::X.opposite_token(), XOToken::O);
    assert_eq!(XOToken::O.opposite_token(), XOToken::X);
    assert_eq!(XOToken::X.opposite_token().opposite_token(), XOToken::X);
}

#[test]
fn token_text_forms() {
    assert_eq!(XOToken::X.symbol(), 'X');
    assert_eq!(XOToken::O.symbol(), 'O');
    assert_eq!(XOToken::X.label(), "X");
    assert_eq!(XOToken::O.label(), "O");
    assert_eq!(XOTokenWinState::X.label(), "X");
    assert_eq!(XOTokenWinState::O.label(), "O");
    assert_eq!(XOTokenWinState::Stale.label(), "Stale");
}

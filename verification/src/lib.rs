//! A tic-tac-toe (noughts and crosses) rules engine with a focus on
//! minimum memory usage: the whole game state — both players' marks,
//! whose turn it is, and the outcome — lives in one 32-bit bitboard.
//!
//! [`XOBoard`] is the packed value type with the move and evaluation
//! logic; [`XO`] wraps it as a mutating game handle.

use vstd::prelude::*;

mod board;
mod token;
pub mod xo_pos;

pub use board::lemma_cells_round_trip;
pub use board::lemma_outcome_precedence;
pub use board::lemma_sane_no_double_claim;
pub use board::spec_cell_char;
pub use board::spec_encode_win;
pub use board::spec_line_won;
pub use board::spec_outcome;
pub use board::spec_play_rel;
pub use board::spec_win_masks;
pub use board::BoardIter;
pub use board::XOBoard;
pub use board::XOGameError;
pub use board::XOGameResult;
pub use board::BIT_MASK;
pub use board::BIT_SHIFT;
pub use token::XOToken;
pub use token::XOTokenWinState;
pub use xo_pos::XOPos;
pub use xo_pos::XOPosError;

verus! {

/// Error combining every failure this crate can report: an invalid
/// position, or an invalid play.
#[derive(Copy, Clone, Debug, Eq, PartialEq, Structural)]
pub enum XOError {
    /// Invalid position.
    PositionError { source: XOPosError },
    /// Error occurred when trying to play (make a move).
    GameError { source: XOGameError },
}

pub type XOResult<T = ()> = Result<T, XOError>;

impl From<XOPosError> for XOError {
    fn from(source: XOPosError) -> (r: XOError) {
        XOError::PositionError { source }
    }
}

impl vstd::std_specs::convert::FromSpecImpl<XOPosError> for XOError {
    open spec fn obeys_from_spec() -> bool {
        true
    }

    open spec fn from_spec(source: XOPosError) -> XOError {
        XOError::PositionError { source }
    }
}

impl From<XOGameError> for XOError {
    fn from(source: XOGameError) -> (r: XOError) {
        XOError::GameError { source }
    }
}

impl vstd::std_specs::convert::FromSpecImpl<XOGameError> for XOError {
    open spec fn obeys_from_spec() -> bool {
        true
    }

    open spec fn from_spec(source: XOGameError) -> XOError {
        XOError::GameError { source }
    }
}

/// A tic-tac-toe game: the mutating view of [`XOBoard`].
///
/// It is implemented as a thin wrapper holding one packed board value;
/// every operation replaces the held value with a newly computed one.
#[derive(Copy, Clone, Debug, Eq, PartialEq, Structural)]
pub struct XO {
    board: XOBoard,
}

impl XO {
    /// The wrapped board value.
    pub closed spec fn spec_board(self) -> XOBoard {
        self.board
    }

    /// Start a new game: empty board, X to move, outcome undecided.
    pub fn new() -> (r: Self)
        ensures
            r.spec_board().spec_bits() == 0,
            r.spec_board().spec_turn() == XOToken::X,
            !r.spec_board().spec_game_ended(),
            r.spec_board().spec_win_state() is None,
            r.spec_board().spec_sane(),
            forall|i: u32| i < 9 ==> r.spec_board().spec_token_at(i) is None,
    {
        XO { board: XOBoard::empty() }
    }

    /// Wrap an existing board without modifying anything in it.
    pub fn from_board(board: XOBoard) -> (r: Self)
        ensures
            r.spec_board() == board,
    {
        XO { board }
    }

    /// Make this turn's move at `pos`.
    ///
    /// On success the held board is replaced by the played one and the
    /// freshly evaluated outcome is returned: `None` while the game goes
    /// on, `Some` once it has ended. A move on an occupied cell fails
    /// with `AlreadyPlayedError`, one after the game has ended with
    /// `GameEndedError`; a failed move leaves the game untouched.
    pub fn play(&mut self, pos: XOPos) -> (r: XOGameResult<Option<XOTokenWinState>>)
        ensures
            old(self).spec_board().spec_game_ended() ==> r == Err::<
                Option<XOTokenWinState>,
                XOGameError,
            >(XOGameError::GameEndedError) && *final(self) == *old(self),
            !old(self).spec_board().spec_game_ended() && old(self).spec_board().spec_token_at(
                pos.spec_index(),
            ) is Some ==> r == Err::<Option<XOTokenWinState>, XOGameError>(
                XOGameError::AlreadyPlayedError { index: pos.spec_index() },
            ) && *final(self) == *old(self),
            !old(self).spec_board().spec_game_ended() && old(self).spec_board().spec_token_at(
                pos.spec_index(),
            ) is None ==> spec_play_rel(
                old(self).spec_board(),
                final(self).spec_board(),
                pos.spec_index(),
            ) && r == Ok::<Option<XOTokenWinState>, XOGameError>(
                final(self).spec_board().spec_win_state(),
            ),
    {
        match self.board.play(pos) {
            Ok(board) => {
                self.board = board;
                Ok(self.board.win_state())
            },
            Err(e) => Err(e),
        }
    }

    /// Swap whose turn it is (X -> O, O -> X) without playing a move.
    pub fn swap_turn(&mut self)
        ensures
            final(self).spec_board().spec_x_bit() == old(self).spec_board().spec_x_bit(),
            final(self).spec_board().spec_o_bit() == old(self).spec_board().spec_o_bit(),
            final(self).spec_board().spec_turn() == old(
                self,
            ).spec_board().spec_turn().spec_opposite(),
            final(self).spec_board().spec_win_bits() == old(self).spec_board().spec_win_bits(),
            final(self).spec_board().spec_game_ended() == old(self).spec_board().spec_game_ended(),
    {
        self.board = self.board.swap_turn();
    }

    /// Whose turn it is (the player who is going to play).
    pub fn turn(self) -> (r: XOToken)
        ensures
            r == self.spec_board().spec_turn(),
    {
        self.board.turn()
    }

    /// The stored outcome: `None` while the game goes on, and otherwise
    /// who won or that it ended in a stalemate.
    ///
    /// This does not recompute the winner: the evaluation already
    /// happened during [`XO::play`], which stored its verdict.
    ///
    /// The caller must hold a game whose outcome field carries one of
    /// the four defined encodings, as every board produced by this
    /// library does.
    pub fn win_state(self) -> (r: Option<XOTokenWinState>)
        requires
            self.spec_board().spec_win_bits_valid(),
        ensures
            r == self.spec_board().spec_win_state(),
    {
        self.board.win_state()
    }

    /// Reset to the empty starting board.
    pub fn reset(&mut self)
        ensures
            final(self).spec_board().spec_bits() == 0,
    {
        self.board = XOBoard::empty();
    }

    /// An iterator-like cursor over the board's cells in row-major order.
    pub fn iter(self) -> (r: BoardIter)
        ensures
            r.spec_board() == self.spec_board(),
            r.spec_current_index() == 0,
    {
        self.board.iter()
    }

    /// A copy of the wrapped board; modifying it does not affect this game.
    pub fn board(self) -> (r: XOBoard)
        ensures
            r == self.spec_board(),
    {
        self.board
    }

    /// A mutable reference to the wrapped board.
    pub fn board_mut(&mut self) -> (r: &mut XOBoard)
        ensures
            *r == old(self).spec_board(),
            final(self).spec_board() == *final(r),
    {
        &mut self.board
    }

    /// Render the game as the header line followed by the grid.
    ///
    /// Same precondition as [`XO::win_state`]: the outcome field must
    /// carry one of the four defined encodings.
    pub fn render(self) -> (r: String)
        requires
            self.spec_board().spec_win_bits_valid(),
        ensures
            r@ == self.spec_board().spec_render(),
    {
        self.board.render()
    }
}

impl Default for XO {
    /// The default game is a fresh one: empty board, X to move.
    fn default() -> (r: Self)
        ensures
            r.spec_board().spec_bits() == 0,
    {
        XO::new()
    }
}

impl From<XOBoard> for XO {
    fn from(board: XOBoard) -> (r: XO) {
        XO::from_board(board)
    }
}

impl vstd::std_specs::convert::FromSpecImpl<XOBoard> for XO {
    open spec fn obeys_from_spec() -> bool {
        true
    }

    closed spec fn from_spec(board: XOBoard) -> XO {
        XO { board }
    }
}

/// Converting a board through `From` wraps exactly that board, as
/// [`XO::from_board`] does.
pub proof fn lemma_xo_from_board(board: XOBoard)
    ensures
        (<XO as vstd::std_specs::convert::FromSpec<XOBoard>>::from_spec(
            board,
        )).spec_board() == board,
{
}

} // verus!

use vstd::prelude::*;

use crate::token::XOToken;
use crate::token::XOTokenWinState;
use crate::xo_pos::XOPos;

verus! {

/// Error returned when trying to make an invalid play.
///
/// Used by [`XOBoard::play`] and `XO::play`.
#[derive(Copy, Clone, Debug, Eq, PartialEq, Structural)]
pub enum XOGameError {
    /// Trying to play at a position that is not empty (already played).
    AlreadyPlayedError { index: u32 },
    /// Trying to play after the game has ended.
    GameEndedError,
}

pub type XOGameResult<T = ()> = Result<T, XOGameError>;

/// The whole game state packed into one 32-bit word:
/// bits `[0, 9)` are X's occupancy, bits `[9, 18)` are O's occupancy,
/// bit 18 is the turn (0 = X, 1 = O), and bits `[19, 22)` encode the
/// outcome (`0b000` undecided, `0b011` X wins, `0b101` O wins,
/// `0b111` stalemate).
#[derive(Copy, Clone, Debug, Eq, PartialEq, Structural)]
pub struct XOBoard {
    bit_board: u32,
}

pub const BIT_MASK: u32 = 0b111_111_111;
pub const BIT_SHIFT: u32 = 9;

/// The eight winning line patterns as 9-bit masks: three rows,
/// three columns, two diagonals.
pub open spec fn spec_win_masks() -> Seq<u32> {
    seq![
        0b000_000_111u32,
        0b000_111_000u32,
        0b111_000_000u32,
        0b100_100_100u32,
        0b010_010_010u32,
        0b001_001_001u32,
        0b100_010_001u32,
        0b001_010_100u32,
    ]
}

/// A 9-bit occupancy mask completes a line when it covers every bit of
/// one of the eight winning patterns.
pub open spec fn spec_line_won(m: u32) -> bool {
    exists|j: int| 0 <= j < 8 && (m & #[trigger] spec_win_masks()[j]) == spec_win_masks()[j]
}

/// The outcome judged from the two occupancy masks, in fixed precedence:
/// a completed X line wins for X; otherwise a completed O line wins for O;
/// otherwise a full board is a stalemate; otherwise the game is undecided.
pub open spec fn spec_outcome(x_bit: u32, o_bit: u32) -> Option<XOTokenWinState> {
    if spec_line_won(x_bit) {
        Some(XOTokenWinState::X)
    } else if spec_line_won(o_bit) {
        Some(XOTokenWinState::O)
    } else if x_bit | o_bit == BIT_MASK {
        Some(XOTokenWinState::Stale)
    } else {
        None
    }
}

/// The 3-bit encoding of an outcome stored in bits `[19, 22)`.
pub open spec fn spec_encode_win(win_state: Option<XOTokenWinState>) -> u32 {
    match win_state {
        None => 0b000,
        Some(XOTokenWinState::X) => 0b011,
        Some(XOTokenWinState::O) => 0b101,
        Some(XOTokenWinState::Stale) => 0b111,
    }
}

/// What one successful move guarantees: the played cell now holds the
/// mover's token, every other cell is untouched, the turn has flipped,
/// the stored outcome is exactly the one recomputed from the new
/// occupancy masks, and disjoint occupancy is preserved.
pub open spec fn spec_play_rel(pre: XOBoard, post: XOBoard, index: u32) -> bool {
    &&& post.spec_token_at(index) == Some(pre.spec_turn())
    &&& (forall|i: u32| i < 9 && i != index ==> post.spec_token_at(i) == pre.spec_token_at(i))
    &&& post.spec_turn() == pre.spec_turn().spec_opposite()
    &&& post.spec_win_bits() == spec_encode_win(post.spec_evaluate())
    &&& post.spec_win_state() == post.spec_evaluate()
    &&& post.spec_game_ended() == (post.spec_evaluate() is Some)
    &&& (pre.spec_sane() ==> post.spec_sane())
}

impl XOBoard {
    /// The packed word itself.
    pub closed spec fn spec_bits(self) -> u32 {
        self.bit_board
    }

    /// X's 9-bit occupancy mask.
    pub open spec fn spec_x_bit(self) -> u32 {
        self.spec_bits() & BIT_MASK
    }

    /// O's 9-bit occupancy mask.
    pub open spec fn spec_o_bit(self) -> u32 {
        (self.spec_bits() >> BIT_SHIFT) & BIT_MASK
    }

    /// The occupancy mask of the given player.
    pub open spec fn spec_token_bit(self, token: XOToken) -> u32 {
        match token {
            XOToken::X => self.spec_x_bit(),
            XOToken::O => self.spec_o_bit(),
        }
    }

    /// Whose turn it is, read from bit 18.
    pub open spec fn spec_turn(self) -> XOToken {
        if (self.spec_bits() >> (2 * BIT_SHIFT)) & 1 == 1 {
            XOToken::O
        } else {
            XOToken::X
        }
    }

    /// The 3-bit outcome field, bits `[19, 22)`.
    pub open spec fn spec_win_bits(self) -> u32 {
        (self.spec_bits() >> (2 * BIT_SHIFT + 1)) & 0b111
    }

    /// The outcome field holds one of the four defined encodings.
    pub open spec fn spec_win_bits_valid(self) -> bool {
        ||| self.spec_win_bits() == 0b000
        ||| self.spec_win_bits() == 0b011
        ||| self.spec_win_bits() == 0b101
        ||| self.spec_win_bits() == 0b111
    }

    /// The stored outcome, decoded from the outcome field.
    pub open spec fn spec_win_state(self) -> Option<XOTokenWinState> {
        if self.spec_win_bits() == 0b011 {
            Some(XOTokenWinState::X)
        } else if self.spec_win_bits() == 0b101 {
            Some(XOTokenWinState::O)
        } else if self.spec_win_bits() == 0b111 {
            Some(XOTokenWinState::Stale)
        } else {
            None
        }
    }

    /// Whether the stored outcome marks the game as over (bit 19).
    pub open spec fn spec_game_ended(self) -> bool {
        (self.spec_bits() >> (2 * BIT_SHIFT + 1)) & 1 == 1
    }

    /// Which token, if any, occupies the cell at `index`.
    pub open spec fn spec_token_at(self, index: u32) -> Option<XOToken> {
        if (self.spec_x_bit() >> index) & 1 == 1 {
            Some(XOToken::X)
        } else if (self.spec_o_bit() >> index) & 1 == 1 {
            Some(XOToken::O)
        } else {
            None
        }
    }

    /// The nine cells in row-major order, top-left first.
    pub open spec fn spec_cells(self) -> Seq<Option<XOToken>> {
        Seq::new(9, |i: int| self.spec_token_at(i as u32))
    }

    /// The two occupancy masks never claim the same cell.
    pub open spec fn spec_sane(self) -> bool {
        self.spec_x_bit() & self.spec_o_bit() == 0
    }

    /// The outcome recomputed from the current occupancy masks.
    pub open spec fn spec_evaluate(self) -> Option<XOTokenWinState> {
        spec_outcome(self.spec_x_bit(), self.spec_o_bit())
    }

    /// Wrap a raw packed word as a board.
    pub fn new(bits: u32) -> (r: Self)
        ensures
            r.spec_bits() == bits,
    {
        XOBoard { bit_board: bits }
    }

    /// The all-empty board: no marks, X to move, outcome undecided.
    pub fn empty() -> (r: Self)
        ensures
            r.spec_bits() == 0,
            r.spec_turn() == XOToken::X,
            r.spec_win_bits() == 0,
            !r.spec_game_ended(),
            r.spec_win_state() is None,
            r.spec_sane(),
            forall|i: u32| i < 9 ==> r.spec_token_at(i) is None,
    {
        let r = XOBoard::new(0);
        proof {
            assert((0u32 & 0x1FFu32) == 0 && ((0u32 >> 9) & 0x1FFu32) == 0 && (0u32 & 0x1FFu32) & ((
            0u32 >> 9) & 0x1FFu32) == 0 && (0u32 >> 18) & 1 == 0 && (0u32 >> 19) & 0b111 == 0 && (
            0u32 >> 19) & 1 == 0) by (bit_vector);
            assert(forall|i: u32|
                i < 9 ==> ((0u32 & 0x1FFu32) >> i) & 1 == 0 && (((0u32 >> 9) & 0x1FFu32) >> i) & 1
                    == 0) by (bit_vector);
        }
        r
    }

    /// Build a board holding exactly the given row-major cell assignment,
    /// with X to move and the outcome undecided.
    pub fn from_maybe_token_array(arr: [Option<XOToken>; 9]) -> (r: Self)
        ensures
            r.spec_cells() == arr@,
            forall|i: int| 0 <= i < 9 ==> r.spec_token_at(i as u32) == arr@[i],
            r.spec_turn() == XOToken::X,
            r.spec_win_bits() == 0,
            !r.spec_game_ended(),
            r.spec_win_state() is None,
            r.spec_sane(),
    {
        let mut bits: u32 = 0;
        let mut index: usize = 0;
        proof {
            assert((0u32 >> 18) == 0 && (0u32 & 0x1FFu32) & ((0u32 >> 9) & 0x1FFu32)
                == 0) by (bit_vector);
            assert(forall|j: u32|
                j < 9 ==> ((0u32 & 0x1FFu32) >> j) & 1 == 0 && (((0u32 >> 9) & 0x1FFu32) >> j) & 1
                    == 0) by (bit_vector);
        }
        while index < 9
            invariant
                index <= 9,
                bits >> 18 == 0,
                (XOBoard { bit_board: bits }).spec_sane(),
                forall|j: int|
                    0 <= j < index ==> (XOBoard { bit_board: bits }).spec_token_at(j as u32)
                        == arr@[j],
                forall|j: u32|
                    index <= j < 9 ==> (XOBoard { bit_board: bits }).spec_token_at(j) is None,
            decreases 9 - index,
        {
            let ghost old_bits = bits;
            let i = index as u32;
            proof {
                lemma_bit01(old_bits & 0x1FFu32, i);
                lemma_bit01((old_bits >> 9) & 0x1FFu32, i);
            }
            match arr[index] {
                Some(XOToken::X) => {
                    bits = bits | (1u32 << i);
                    proof {
                        lemma_or_x_effects(old_bits, i);
                        lemma_bit_updates(old_bits & 0x1FFu32, i, i);
                        assert forall|j: u32| j < 9 && j != i implies (XOBoard {
                            bit_board: bits,
                        }).spec_token_at(j) == (XOBoard { bit_board: old_bits }).spec_token_at(
                            j,
                        ) by {
                            lemma_bit_updates(old_bits & 0x1FFu32, i, j);
                        }
                    }
                },
                Some(XOToken::O) => {
                    bits = bits | (1u32 << (i + 9));
                    proof {
                        lemma_or_o_effects(old_bits, i);
                        lemma_bit_updates((old_bits >> 9) & 0x1FFu32, i, i);
                        assert forall|j: u32| j < 9 && j != i implies (XOBoard {
                            bit_board: bits,
                        }).spec_token_at(j) == (XOBoard { bit_board: old_bits }).spec_token_at(
                            j,
                        ) by {
                            lemma_bit_updates((old_bits >> 9) & 0x1FFu32, i, j);
                        }
                    }
                },
                None => {},
            }
            index += 1;
        }
        let r = XOBoard::new(bits);
        proof {
            let b = bits;
            assert(b >> 18 == 0 ==> (b >> 18) & 1 == 0 && (b >> 19) & 0b111 == 0 && (b >> 19) & 1
                == 0) by (bit_vector);
            assert(r.spec_cells() =~= arr@);
        }
        r
    }

    /// X's occupancy mask, extracted from the low nine bits.
    pub fn x_bit(self) -> (r: u32)
        ensures
            r == self.spec_x_bit(),
    {
        self.bit_board & BIT_MASK
    }

    /// O's occupancy mask, extracted from bits `[9, 18)`.
    pub fn o_bit(self) -> (r: u32)
        ensures
            r == self.spec_o_bit(),
    {
        (self.bit_board >> BIT_SHIFT) & BIT_MASK
    }

    /// Whose turn it is, read from the packed turn bit.
    pub fn turn(self) -> (r: XOToken)
        ensures
            r == self.spec_turn(),
    {
        if ((self.bit_board >> (2 * BIT_SHIFT)) & 0b1) == 1 {
            XOToken::O
        } else {
            XOToken::X
        }
    }

    /// Flip the turn bit only, leaving occupancy and outcome untouched.
    pub fn swap_turn(self) -> (r: XOBoard)
        ensures
            r.spec_x_bit() == self.spec_x_bit(),
            r.spec_o_bit() == self.spec_o_bit(),
            r.spec_turn() == self.spec_turn().spec_opposite(),
            r.spec_win_bits() == self.spec_win_bits(),
            r.spec_game_ended() == self.spec_game_ended(),
    {
        let b = self.bit_board;
        let r = XOBoard::new(b ^ (0b1 << (2 * BIT_SHIFT)));
        proof {
            assert((b ^ (1u32 << 18)) & 0x1FFu32 == b & 0x1FFu32 && ((b ^ (1u32 << 18)) >> 9)
                & 0x1FFu32 == (b >> 9) & 0x1FFu32 && ((b ^ (1u32 << 18)) >> 19) & 0b111 == (b
                >> 19) & 0b111 && ((b ^ (1u32 << 18)) >> 19) & 1 == (b >> 19) & 1 && (((b >> 18) & 1
                == 1) ==> ((b ^ (1u32 << 18)) >> 18) & 1 == 0) && (((b >> 18) & 1 != 1) ==> ((b ^ (
            1u32 << 18)) >> 18) & 1 == 1)) by (bit_vector);
        }
        r
    }

    /// The stored outcome, decoded from the three outcome bits.
    ///
    /// The caller must hold a board whose outcome field carries one of the
    /// four defined encodings, as every board produced by this library does.
    pub fn win_state(self) -> (r: Option<XOTokenWinState>)
        requires
            self.spec_win_bits_valid(),
        ensures
            r == self.spec_win_state(),
    {
        match (self.bit_board >> (2 * BIT_SHIFT + 1)) & 0b111 {
            0b000 => None,
            0b011 => Some(XOTokenWinState::X),
            0b101 => Some(XOTokenWinState::O),
            0b111 => Some(XOTokenWinState::Stale),
            _ => None,
        }
    }

    /// Whether the stored outcome marks the game as over.
    pub fn game_ended(self) -> (r: bool)
        ensures
            r == self.spec_game_ended(),
    {
        (self.bit_board >> (2 * BIT_SHIFT + 1)) & 0b1 == 1
    }

    /// Overwrite the three outcome bits with the encoding of `win_state`,
    /// leaving occupancy and turn untouched.
    pub fn set_win_state(self, win_state: Option<XOTokenWinState>) -> (r: XOBoard)
        ensures
            r.spec_x_bit() == self.spec_x_bit(),
            r.spec_o_bit() == self.spec_o_bit(),
            r.spec_turn() == self.spec_turn(),
            r.spec_win_bits() == spec_encode_win(win_state),
            r.spec_win_state() == win_state,
            r.spec_game_ended() == (win_state is Some),
    {
        let win_state_bits: u32 = match win_state {
            None => 0b000,
            Some(XOTokenWinState::X) => 0b011,
            Some(XOTokenWinState::O) => 0b101,
            Some(XOTokenWinState::Stale) => 0b111,
        };

        let b = self.bit_board;
        let w = win_state_bits;
        let r = XOBoard::new((b & !(0b111 << (2 * BIT_SHIFT + 1))) | (w << (2 * BIT_SHIFT + 1)));
        proof {
            assert(w < 8 ==> ((b & !(0b111u32 << 19)) | (w << 19)) & 0x1FFu32 == b & 0x1FFu32 && (((
            b & !(0b111u32 << 19)) | (w << 19)) >> 9) & 0x1FFu32 == (b >> 9) & 0x1FFu32 && (((b & !(
            0b111u32 << 19)) | (w << 19)) >> 18) & 1 == (b >> 18) & 1 && (((b & !(0b111u32 << 19))
                | (w << 19)) >> 19) & 0b111 == w && (((b & !(0b111u32 << 19)) | (w << 19)) >> 19)
                & 1 == w & 1) by (bit_vector);
            assert(0b000u32 & 1 == 0 && 0b011u32 & 1 == 1 && 0b101u32 & 1 == 1 && 0b111u32 & 1
                == 1) by (bit_vector);
        }
        r
    }

    /// The single-bit mask of the given player at the given position.
    fn token_mask(self, token: XOToken, pos: XOPos) -> (r: u32)
        ensures
            pos.spec_index() < 9,
            token == XOToken::X ==> r == 1u32 << pos.spec_index(),
            token == XOToken::O ==> r == 1u32 << (pos.spec_index() + BIT_SHIFT),
    {
        match token {
            XOToken::X => self.x_mask(pos),
            XOToken::O => self.o_mask(pos),
        }
    }

    fn x_mask(self, token_pos: XOPos) -> (r: u32)
        ensures
            token_pos.spec_index() < 9,
            r == 1u32 << token_pos.spec_index(),
    {
        0b1 << token_pos.as_index()
    }

    fn o_mask(self, token_pos: XOPos) -> (r: u32)
        ensures
            token_pos.spec_index() < 9,
            r == 1u32 << (token_pos.spec_index() + BIT_SHIFT),
    {
        0b1 << (token_pos.as_index() + BIT_SHIFT)
    }

    /// The occupancy mask of the given player.
    pub fn token_bit(self, token: XOToken) -> (r: u32)
        ensures
            r == self.spec_token_bit(token),
    {
        match token {
            XOToken::X => self.x_bit(),
            XOToken::O => self.o_bit(),
        }
    }

    /// Whether the given player occupies the cell at `pos`.
    pub fn token_exist(self, token: XOToken, pos: XOPos) -> (r: bool)
        ensures
            pos.spec_index() < 9,
            r == ((self.spec_token_bit(token) >> pos.spec_index()) & 1 == 1),
    {
        let index = pos.as_index();
        let token_bit = self.token_bit(token);
        let r = (token_bit & (0b1 << index)) >> index == 1;
        proof {
            let m = token_bit;
            let i = index;
            assert(i < 9 ==> (((m & (1u32 << i)) >> i == 1) == ((m >> i) & 1 == 1))) by (bit_vector);
        }
        r
    }

    /// Write `token`'s occupancy bit at `pos`, clearing the other player's
    /// bit there; turn and outcome bits are untouched. This low-level
    /// primitive does not check prior occupancy: callers needing legality
    /// must use [`XOBoard::play`] instead.
    pub fn set(self, token: XOToken, pos: XOPos) -> (r: XOBoard)
        ensures
            pos.spec_index() < 9,
            r.spec_token_at(pos.spec_index()) == Some(token),
            forall|i: u32|
                i < 9 && i != pos.spec_index() ==> r.spec_token_at(i) == self.spec_token_at(i),
            r.spec_turn() == self.spec_turn(),
            r.spec_win_bits() == self.spec_win_bits(),
            r.spec_game_ended() == self.spec_game_ended(),
            token == XOToken::X ==> r.spec_x_bit() == (self.spec_x_bit() | (1u32
                << pos.spec_index())) && r.spec_o_bit() == (self.spec_o_bit() & !(1u32
                << pos.spec_index())),
            token == XOToken::O ==> r.spec_o_bit() == (self.spec_o_bit() | (1u32
                << pos.spec_index())) && r.spec_x_bit() == (self.spec_x_bit() & !(1u32
                << pos.spec_index())),
            self.spec_sane() ==> r.spec_sane(),
    {
        let own_mask = self.token_mask(token, pos);
        let other_mask = self.token_mask(token.opposite_token(), pos);
        let r = XOBoard::new((self.bit_board | own_mask) & (!other_mask));
        proof {
            let b = self.bit_board;
            let idx = pos.spec_index();
            match token {
                XOToken::X => {
                    lemma_set_x_effects(b, idx);
                },
                XOToken::O => {
                    lemma_set_o_effects(b, idx);
                },
            }
            lemma_cell_updates(self, r, token, idx);
            lemma_set_preserves_sane(self.spec_x_bit(), self.spec_o_bit(), idx);
        }
        r
    }

    /// Make this turn's move at `pos`.
    ///
    /// Fails with `GameEndedError` when the stored outcome already marks the
    /// game as over, and with `AlreadyPlayedError` when the target cell is
    /// occupied; in either case no new state is produced. Otherwise the
    /// returned board holds the mark, the freshly evaluated outcome, and the
    /// flipped turn.
    pub fn play(self, pos: XOPos) -> (r: XOGameResult<XOBoard>)
        ensures
            self.spec_game_ended() ==> r == Err::<XOBoard, XOGameError>(
                XOGameError::GameEndedError,
            ),
            !self.spec_game_ended() && self.spec_token_at(pos.spec_index()) is Some ==> r
                == Err::<XOBoard, XOGameError>(
                XOGameError::AlreadyPlayedError { index: pos.spec_index() },
            ),
            !self.spec_game_ended() && self.spec_token_at(pos.spec_index()) is None ==> (r matches
                Ok(b) && spec_play_rel(self, b, pos.spec_index())),
    {
        if self.game_ended() {
            return Err(XOGameError::GameEndedError);
        }

        if !self.check_free_position(pos) {
            return Err(XOGameError::AlreadyPlayedError { index: pos.as_index() });
        }

        let board = self.set(self.turn(), pos);
        let board = board.set_win_state(board.evaluate_winner()).swap_turn();
        Ok(board)
    }

    /// Whether the cell at `pos` holds no mark of either player.
    pub fn check_free_position(self, pos: XOPos) -> (r: bool)
        ensures
            pos.spec_index() < 9,
            r == (self.spec_token_at(pos.spec_index()) is None),
    {
        !self.token_exist(XOToken::X, pos) && !self.token_exist(XOToken::O, pos)
    }

    /// Which token, if any, occupies the cell at `pos`.
    pub fn token_at(self, pos: XOPos) -> (r: Option<XOToken>)
        ensures
            r == self.spec_token_at(pos.spec_index()),
    {
        let index = pos.as_index();
        self.cell_at(index)
    }

    /// Which token, if any, occupies the cell at a raw, pre-validated index.
    fn cell_at(self, index: u32) -> (r: Option<XOToken>)
        requires
            index < 9,
        ensures
            r == self.spec_token_at(index),
    {
        if (self.x_bit() >> index & 0b1) == 1 {
            Some(XOToken::X)
        } else if (self.o_bit() >> index & 0b1) == 1 {
            Some(XOToken::O)
        } else {
            None
        }
    }

    /// Whether the outcome field carries one of the four defined
    /// encodings, as it does in every board this library produces. Like
    /// [`XOBoard::check_sanity`], an optional diagnostic for raw words
    /// injected through [`XOBoard::new`].
    pub fn check_win_encoding(self) -> (r: bool)
        ensures
            r == self.spec_win_bits_valid(),
    {
        let w = (self.bit_board >> (2 * BIT_SHIFT + 1)) & 0b111;
        w == 0b000 || w == 0b011 || w == 0b101 || w == 0b111
    }

    /// Whether the two occupancy masks are disjoint, as they are for every
    /// state reachable through normal play.
    pub fn check_sanity(self) -> (r: bool)
        ensures
            r == self.spec_sane(),
    {
        let x = self.x_bit();
        let o = self.o_bit();
        let r = (o & x) == 0;
        proof {
            assert(((o & x) == 0) == ((x & o) == 0)) by (bit_vector);
        }
        r
    }

    /// Judge the outcome from the occupancy masks alone, in the fixed
    /// precedence of [`spec_outcome`]: X's lines first, then O's, then a
    /// full-board stalemate.
    pub fn evaluate_winner(self) -> (r: Option<XOTokenWinState>)
        ensures
            r == self.spec_evaluate(),
    {
        let x = self.x_bit();
        let o = self.o_bit();
        if line_match(x) {
            Some(XOTokenWinState::X)
        } else if line_match(o) {
            Some(XOTokenWinState::O)
        } else if x | o == BIT_MASK {
            Some(XOTokenWinState::Stale)
        } else {
            None
        }
    }

    /// An iterator-like cursor over the nine cells in row-major order.
    pub fn iter(self) -> (r: BoardIter)
        ensures
            r.spec_board() == self,
            r.spec_current_index() == 0,
    {
        BoardIter::new(self)
    }

    /// The grid as text: three lines of three `X`/`O`/`.` characters,
    /// each line ended by a newline. Character `k` of the text is the
    /// newline for `k % 4 == 3`, and otherwise draws the cell at row
    /// `k / 4`, column `k % 4`.
    pub open spec fn spec_grid(self) -> Seq<char> {
        Seq::new(
            12,
            |k: int|
                if k % 4 == 3 {
                    '\n'
                } else {
                    spec_cell_char(self.spec_token_at((3 * (k / 4) + k % 4) as u32))
                },
        )
    }

    /// The line of text put above the grid: who won, or whose turn it is.
    pub open spec fn spec_header(self) -> Seq<char> {
        match self.spec_win_state() {
            Some(XOTokenWinState::Stale) => "Game Ended In Stale Mate\n"@,
            Some(winner) => "Game Ended: "@ + winner.spec_label() + "'s winner\n"@,
            None => self.spec_turn().spec_label() + "'s Turn\n"@,
        }
    }

    /// The full text rendering: the header line, then the grid.
    pub open spec fn spec_render(self) -> Seq<char> {
        self.spec_header() + self.spec_grid()
    }

    /// Draw the grid as three lines of three `X`/`O`/`.` characters.
    pub fn render_grid(self) -> (r: String)
        ensures
            r@ == self.spec_grid(),
    {
        let mut s = String::new();
        let mut j: u32 = 0;
        while j < 3
            invariant
                j <= 3,
                s@ == self.spec_grid().subrange(0, 4 * j as int),
            decreases 3 - j,
        {
            let mut i: u32 = 0;
            while i < 3
                invariant
                    j < 3,
                    i <= 3,
                    s@ == self.spec_grid().subrange(0, 4 * j as int + i as int),
                decreases 3 - i,
            {
                let index = i + 3 * j;
                let piece = cell_str(self.cell_at(index));
                s.append(piece);
                proof {
                    let k = 4 * (j as int) + (i as int);
                    assert(k / 4 == j as int && k % 4 == i as int) by (nonlinear_arith)
                        requires
                            0 <= i < 3,
                            0 <= j < 3,
                            k == 4 * (j as int) + (i as int),
                    ;
                    assert(self.spec_grid()[k] == spec_cell_char(
                        self.spec_token_at((3 * (j as int) + i as int) as u32),
                    ));
                    assert(s@ =~= self.spec_grid().subrange(0, k + 1));
                }
                i += 1;
            }
            s.append("\n");
            proof {
                reveal_strlit("\n");
                let k = 4 * (j as int) + 3;
                assert(k / 4 == j as int && k % 4 == 3) by (nonlinear_arith)
                    requires
                        0 <= j < 3,
                        k == 4 * (j as int) + 3,
                ;
                assert(self.spec_grid()[k] == '\n');
                assert(s@ =~= self.spec_grid().subrange(0, 4 * (j as int + 1)));
            }
            j += 1;
        }
        proof {
            assert(self.spec_grid().subrange(0, 12) =~= self.spec_grid());
        }
        s
    }

    /// Render the state as the header line followed by the grid, as a
    /// console front end would print it.
    ///
    /// The caller must hold a board whose outcome field carries one of the
    /// four defined encodings, as every board produced by this library does.
    pub fn render(self) -> (r: String)
        requires
            self.spec_win_bits_valid(),
        ensures
            r@ == self.spec_render(),
    {
        let mut s: String = match self.win_state() {
            Some(XOTokenWinState::Stale) => String::from_str("Game Ended In Stale Mate\n"),
            Some(winner) => {
                let mut h = String::from_str("Game Ended: ");
                h.append(winner.label());
                h.append("'s winner\n");
                h
            },
            None => {
                let mut h = String::from_str(self.turn().label());
                h.append("'s Turn\n");
                h
            },
        };
        let grid = self.render_grid();
        s.append(grid.as_str());
        s
    }
}

/// The character a cell is drawn with: the occupying mark's symbol, or a
/// dot for an empty cell.
pub open spec fn spec_cell_char(cell: Option<XOToken>) -> char {
    match cell {
        Some(token) => token.spec_symbol(),
        None => '.',
    }
}

/// Draw one cell as `"X"`, `"O"`, or `"."`.
fn cell_str(cell: Option<XOToken>) -> (r: &'static str)
    ensures
        r@ == seq![spec_cell_char(cell)],
{
    match cell {
        Some(XOToken::X) => {
            proof {
                reveal_strlit("X");
                assert("X"@ =~= seq![spec_cell_char(cell)]);
            }
            "X"
        },
        Some(XOToken::O) => {
            proof {
                reveal_strlit("O");
                assert("O"@ =~= seq![spec_cell_char(cell)]);
            }
            "O"
        },
        None => {
            proof {
                reveal_strlit(".");
                assert("."@ =~= seq![spec_cell_char(cell)]);
            }
            "."
        },
    }
}

/// The winning pattern at position `j` of [`spec_win_masks`].
fn win_mask_at(j: usize) -> (r: u32)
    requires
        j < 8,
    ensures
        r == spec_win_masks()[j as int],
{
    match j {
        0 => 0b000_000_111,
        1 => 0b000_111_000,
        2 => 0b111_000_000,
        3 => 0b100_100_100,
        4 => 0b010_010_010,
        5 => 0b001_001_001,
        6 => 0b100_010_001,
        _ => 0b001_010_100,
    }
}

/// Search the eight winning patterns for one fully covered by `m`,
/// using the complement trick `(m | !mask) & BIT_MASK == BIT_MASK`,
/// which confines the complement to the 9-bit universe.
fn line_match(m: u32) -> (r: bool)
    ensures
        r == spec_line_won(m),
{
    let mut j: usize = 0;
    while j < 8
        invariant
            j <= 8,
            forall|k: int|
                0 <= k < j ==> (m & #[trigger] spec_win_masks()[k]) != spec_win_masks()[k],
        decreases 8 - j,
    {
        let mask = win_mask_at(j);
        proof {
            lemma_win_masks_confined();
            lemma_line_trick(m, mask);
        }
        if ((m | !mask) & BIT_MASK) == BIT_MASK {
            proof {
                assert((m & spec_win_masks()[j as int]) == spec_win_masks()[j as int]);
            }
            return true;
        }
        j += 1;
    }
    false
}

/// For disjoint occupancy masks, no cell index has both players' bits set.
pub proof fn lemma_sane_no_double_claim(b: XOBoard)
    requires
        b.spec_sane(),
    ensures
        forall|i: u32|
            i < 9 ==> !((b.spec_x_bit() >> i) & 1 == 1 && (b.spec_o_bit() >> i) & 1 == 1),
{
    let x = b.spec_x_bit();
    let o = b.spec_o_bit();
    assert(forall|i: u32| x & o == 0 ==> !((x >> i) & 1 == 1 && (o >> i) & 1 == 1)) by (bit_vector);
}

/// Even when both players' masks complete a line — a state never reached
/// through legal play — the judged outcome is the single fixed one that
/// the precedence rule picks: a win for X.
pub proof fn lemma_outcome_precedence(x_bit: u32, o_bit: u32)
    requires
        spec_line_won(x_bit),
        spec_line_won(o_bit),
    ensures
        spec_outcome(x_bit, o_bit) == Some(XOTokenWinState::X),
{
}

/// A board whose cells match a 9-cell assignment reads back as exactly
/// that assignment, in row-major order.
pub proof fn lemma_cells_round_trip(b: XOBoard, arr: [Option<XOToken>; 9])
    requires
        forall|i: int| 0 <= i < 9 ==> b.spec_token_at(i as u32) == arr@[i],
    ensures
        b.spec_cells() == arr@,
{
    assert(b.spec_cells() =~= arr@);
}

proof fn lemma_win_masks_confined()
    ensures
        forall|k: int|
            0 <= k < 8 ==> #[trigger] spec_win_masks()[k] & 0x1FFu32 == spec_win_masks()[k],
{
    assert(0b000_000_111u32 & 0x1FFu32 == 0b000_000_111u32 && 0b000_111_000u32 & 0x1FFu32
        == 0b000_111_000u32 && 0b111_000_000u32 & 0x1FFu32 == 0b111_000_000u32 && 0b100_100_100u32
        & 0x1FFu32 == 0b100_100_100u32 && 0b010_010_010u32 & 0x1FFu32 == 0b010_010_010u32
        && 0b001_001_001u32 & 0x1FFu32 == 0b001_001_001u32 && 0b100_010_001u32 & 0x1FFu32
        == 0b100_010_001u32 && 0b001_010_100u32 & 0x1FFu32 == 0b001_010_100u32) by (bit_vector);
    assert forall|k: int| 0 <= k < 8 implies #[trigger] spec_win_masks()[k] & 0x1FFu32
        == spec_win_masks()[k] by {
        if k == 0 {
        } else if k == 1 {
        } else if k == 2 {
        } else if k == 3 {
        } else if k == 4 {
        } else if k == 5 {
        } else if k == 6 {
        } else {
            assert(k == 7);
        }
    }
}

/// The complement trick is, on the 9-bit universe, exactly line coverage.
proof fn lemma_line_trick(m: u32, l: u32)
    by (bit_vector)
    requires
        l & 0x1FFu32 == l,
    ensures
        (((m | !l) & 0x1FFu32) == 0x1FFu32) <==> ((m & l) == l),
{
}

/// Effect of setting X's bit and clearing O's bit at cell `idx` on the
/// three packed fields.
proof fn lemma_set_x_effects(b: u32, idx: u32)
    by (bit_vector)
    requires
        idx < 9,
    ensures
        ((b | (1u32 << idx)) & !(1u32 << (idx + 9))) & 0x1FFu32 == (b & 0x1FFu32) | (1u32 << idx),
        (((b | (1u32 << idx)) & !(1u32 << (idx + 9))) >> 9) & 0x1FFu32 == ((b >> 9) & 0x1FFu32) & !(
        1u32 << idx),
        (((b | (1u32 << idx)) & !(1u32 << (idx + 9))) >> 18) & 1 == (b >> 18) & 1,
        (((b | (1u32 << idx)) & !(1u32 << (idx + 9))) >> 19) & 0b111 == (b >> 19) & 0b111,
        (((b | (1u32 << idx)) & !(1u32 << (idx + 9))) >> 19) & 1 == (b >> 19) & 1,
{
}

/// Effect of setting O's bit and clearing X's bit at cell `idx` on the
/// three packed fields.
proof fn lemma_set_o_effects(b: u32, idx: u32)
    by (bit_vector)
    requires
        idx < 9,
    ensures
        ((b | (1u32 << (idx + 9))) & !(1u32 << idx)) & 0x1FFu32 == (b & 0x1FFu32) & !(1u32 << idx),
        (((b | (1u32 << (idx + 9))) & !(1u32 << idx)) >> 9) & 0x1FFu32 == ((b >> 9) & 0x1FFu32) | (
        1u32 << idx),
        (((b | (1u32 << (idx + 9))) & !(1u32 << idx)) >> 18) & 1 == (b >> 18) & 1,
        (((b | (1u32 << (idx + 9))) & !(1u32 << idx)) >> 19) & 0b111 == (b >> 19) & 0b111,
        (((b | (1u32 << (idx + 9))) & !(1u32 << idx)) >> 19) & 1 == (b >> 19) & 1,
{
}

/// How setting one bit and clearing another at position `i` reads back
/// at any cell position `j`.
proof fn lemma_bit_updates(m: u32, i: u32, j: u32)
    by (bit_vector)
    requires
        i < 9,
        j < 9,
    ensures
        i == j ==> ((m | (1u32 << i)) >> j) & 1 == 1,
        i != j ==> ((m | (1u32 << i)) >> j) & 1 == (m >> j) & 1,
        i == j ==> ((m & !(1u32 << i)) >> j) & 1 == 0,
        i != j ==> ((m & !(1u32 << i)) >> j) & 1 == (m >> j) & 1,
{
}

/// Cell-level reading of a `set`: the written cell holds the token, the
/// others read as before.
proof fn lemma_cell_updates(pre: XOBoard, post: XOBoard, token: XOToken, idx: u32)
    requires
        idx < 9,
        token == XOToken::X ==> post.spec_x_bit() == (pre.spec_x_bit() | (1u32 << idx))
            && post.spec_o_bit() == (pre.spec_o_bit() & !(1u32 << idx)),
        token == XOToken::O ==> post.spec_o_bit() == (pre.spec_o_bit() | (1u32 << idx))
            && post.spec_x_bit() == (pre.spec_x_bit() & !(1u32 << idx)),
    ensures
        post.spec_token_at(idx) == Some(token),
        forall|i: u32| i < 9 && i != idx ==> post.spec_token_at(i) == pre.spec_token_at(i),
{
    lemma_bit_updates(pre.spec_x_bit(), idx, idx);
    lemma_bit_updates(pre.spec_o_bit(), idx, idx);
    assert forall|i: u32| i < 9 && i != idx implies post.spec_token_at(i) == pre.spec_token_at(
        i,
    ) by {
        lemma_bit_updates(pre.spec_x_bit(), idx, i);
        lemma_bit_updates(pre.spec_o_bit(), idx, i);
    }
}

/// Writing one player's bit while clearing the other's keeps the two
/// occupancy masks disjoint.
proof fn lemma_set_preserves_sane(x: u32, o: u32, idx: u32)
    by (bit_vector)
    requires
        idx < 9,
    ensures
        x & o == 0 ==> (x | (1u32 << idx)) & (o & !(1u32 << idx)) == 0,
        x & o == 0 ==> (x & !(1u32 << idx)) & (o | (1u32 << idx)) == 0,
{
}

/// A single extracted bit reads as zero or one.
proof fn lemma_bit01(m: u32, i: u32)
    by (bit_vector)
    ensures
        (m >> i) & 1 == 0 || (m >> i) & 1 == 1,
{
}

/// Effect of OR-ing X's bit at cell `i` into the packed word.
proof fn lemma_or_x_effects(b: u32, i: u32)
    by (bit_vector)
    requires
        i < 9,
        (((b >> 9) & 0x1FFu32) >> i) & 1 == 0,
        (b & 0x1FFu32) & ((b >> 9) & 0x1FFu32) == 0,
        b >> 18 == 0,
    ensures
        (b | (1u32 << i)) & 0x1FFu32 == (b & 0x1FFu32) | (1u32 << i),
        ((b | (1u32 << i)) >> 9) & 0x1FFu32 == (b >> 9) & 0x1FFu32,
        (b | (1u32 << i)) >> 18 == 0,
        ((b | (1u32 << i)) & 0x1FFu32) & (((b | (1u32 << i)) >> 9) & 0x1FFu32) == 0,
{
}

/// Effect of OR-ing O's bit at cell `i` into the packed word.
proof fn lemma_or_o_effects(b: u32, i: u32)
    by (bit_vector)
    requires
        i < 9,
        ((b & 0x1FFu32) >> i) & 1 == 0,
        (b & 0x1FFu32) & ((b >> 9) & 0x1FFu32) == 0,
        b >> 18 == 0,
    ensures
        (b | (1u32 << (i + 9))) & 0x1FFu32 == b & 0x1FFu32,
        ((b | (1u32 << (i + 9))) >> 9) & 0x1FFu32 == ((b >> 9) & 0x1FFu32) | (1u32 << i),
        (b | (1u32 << (i + 9))) >> 18 == 0,
        ((b | (1u32 << (i + 9))) & 0x1FFu32) & (((b | (1u32 << (i + 9))) >> 9) & 0x1FFu32) == 0,
{
}

/// An iterator-style cursor through the cells of an [`XOBoard`].
///
/// Yields, for each of the nine cells in row-major order (top-left first,
/// reading direction), `None` for an empty cell and `Some(token)` for an
/// occupied one, then reports exhaustion. Since [`XOBoard`] is a copy
/// type, the cursor holds its own copy of the board.
pub struct BoardIter {
    board: XOBoard,
    current_index: u32,
}

impl BoardIter {
    /// The board being walked.
    pub closed spec fn spec_board(self) -> XOBoard {
        self.board
    }

    /// The index of the next cell to yield.
    pub closed spec fn spec_current_index(self) -> u32 {
        self.current_index
    }

    fn new(board: XOBoard) -> (r: BoardIter)
        ensures
            r.spec_board() == board,
            r.spec_current_index() == 0,
    {
        BoardIter { board, current_index: 0 }
    }

    /// Yield the cell at the cursor and advance, or report exhaustion
    /// after the ninth cell.
    pub fn next(&mut self) -> (r: Option<Option<XOToken>>)
        ensures
            final(self).spec_board() == old(self).spec_board(),
            old(self).spec_current_index() >= 9 ==> r is None && final(self).spec_current_index()
                == old(self).spec_current_index(),
            old(self).spec_current_index() < 9 ==> r == Some(
                old(self).spec_board().spec_token_at(old(self).spec_current_index()),
            ) && final(self).spec_current_index() == old(self).spec_current_index() + 1,
    {
        if self.current_index >= 9 {
            return None;
        }

        let maybe_token = self.board.cell_at(self.current_index);

        self.current_index = self.current_index + 1;
        Some(maybe_token)
    }
}

} // verus!

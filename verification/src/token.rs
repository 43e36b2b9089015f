use vstd::prelude::*;

verus! {

/// One of the two players' marks in the game.
#[derive(Ord, PartialOrd, Eq, PartialEq, Copy, Clone, Debug, Structural)]
pub enum XOToken {
    X,
    O,
}

impl XOToken {
    /// The mark belonging to the other player.
    pub open spec fn spec_opposite(self) -> XOToken {
        match self {
            XOToken::X => XOToken::O,
            XOToken::O => XOToken::X,
        }
    }

    /// Return the opposite mark (X -> O, O -> X) without mutating.
    pub fn opposite_token(self) -> (r: XOToken)
        ensures
            r == self.spec_opposite(),
    {
        match self {
            XOToken::X => XOToken::O,
            XOToken::O => XOToken::X,
        }
    }

    /// The character conventionally used to draw this mark.
    pub open spec fn spec_symbol(self) -> char {
        match self {
            XOToken::X => 'X',
            XOToken::O => 'O',
        }
    }

    /// Character rendering of the mark, `'X'` or `'O'`.
    pub fn symbol(self) -> (r: char)
        ensures
            r == self.spec_symbol(),
    {
        match self {
            XOToken::X => 'X',
            XOToken::O => 'O',
        }
    }

    /// The text conventionally used to name this mark.
    pub open spec fn spec_label(self) -> Seq<char> {
        match self {
            XOToken::X => "X"@,
            XOToken::O => "O"@,
        }
    }

    /// Text rendering of the mark, `"X"` or `"O"`.
    pub fn label(self) -> (r: &'static str)
        ensures
            r@ == self.spec_label(),
    {
        match self {
            XOToken::X => "X",
            XOToken::O => "O",
        }
    }
}

/// How a finished game ended: a win for one of the players, or a stalemate.
#[derive(Ord, PartialOrd, Eq, PartialEq, Copy, Clone, Debug, Structural)]
pub enum XOTokenWinState {
    /// Game ended with X as winner.
    X,
    /// Game ended with O as winner.
    O,
    /// Game ended in a stalemate.
    Stale,
}

impl XOTokenWinState {
    /// The text conventionally used to name this ending.
    pub open spec fn spec_label(self) -> Seq<char> {
        match self {
            XOTokenWinState::X => "X"@,
            XOTokenWinState::O => "O"@,
            XOTokenWinState::Stale => "Stale"@,
        }
    }

    /// Text rendering of the ending: `"X"`, `"O"`, or `"Stale"`.
    pub fn label(self) -> (r: &'static str)
        ensures
            r@ == self.spec_label(),
    {
        match self {
            XOTokenWinState::X => "X",
            XOTokenWinState::O => "O",
            XOTokenWinState::Stale => "Stale",
        }
    }
}

impl From<XOToken> for XOTokenWinState {
    /// A winner's token names the corresponding winning end state.
    fn from(token: XOToken) -> (r: XOTokenWinState) {
        match token {
            XOToken::X => XOTokenWinState::X,
            XOToken::O => XOTokenWinState::O,
        }
    }
}

impl vstd::std_specs::convert::FromSpecImpl<XOToken> for XOTokenWinState {
    open spec fn obeys_from_spec() -> bool {
        true
    }

    open spec fn from_spec(token: XOToken) -> XOTokenWinState {
        match token {
            XOToken::X => XOTokenWinState::X,
            XOToken::O => XOTokenWinState::O,
        }
    }
}

} // verus!

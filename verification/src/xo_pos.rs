use vstd::prelude::*;

verus! {

/// Error raised when attempting to construct an invalid [`XOPos`].
#[derive(Copy, Clone, Debug, Eq, PartialEq, Structural)]
pub enum XOPosError {
    /// The linear index is outside `[0, 8]`.
    InvalidXOIndex { index: u32 },
    /// The row is outside `[0, 2]`.
    InvalidXORow { row: u32 },
    /// The column is outside `[0, 2]`.
    InvalidXOCol { col: u32 },
}

/// A validated position in the 3x3 grid, held as a linear index.
///
/// Index 0 is the top-left cell; indices count up left-to-right,
/// top-to-bottom:
///
/// ```text
/// | 0 | 1 | 2 |
/// | 3 | 4 | 5 |
/// | 6 | 7 | 8 |
/// ```
#[derive(Copy, Clone, Debug)]
pub struct XOPos {
    index: u32,
}

impl XOPos {
    /// The linear index held by this position; always below 9.
    pub closed spec fn spec_index(self) -> u32 {
        self.index
    }

    #[verifier::type_invariant]
    spec fn wf(self) -> bool {
        self.index < 9
    }

    /// Build a position from a linear index in `[0, 8]`.
    ///
    /// Returns `Err(XOPosError::InvalidXOIndex)` exactly when `index >= 9`.
    pub fn index(index: u32) -> (r: Result<Self, XOPosError>)
        ensures
            index < 9 ==> (r matches Ok(p) && p.spec_index() == index),
            index >= 9 ==> r == Err::<Self, XOPosError>(XOPosError::InvalidXOIndex { index }),
    {
        if index >= 9 {
            return Err(XOPosError::InvalidXOIndex { index });
        }

        Ok(XOPos { index })
    }

    /// Build a position from a `(row, column)` pair, each in `[0, 2]`;
    /// the linear index is `3 * row + col`.
    ///
    /// Returns `Err(XOPosError::InvalidXORow)` exactly when `row >= 3`, and
    /// otherwise `Err(XOPosError::InvalidXOCol)` exactly when `col >= 3`.
    pub fn row_col(row: u32, col: u32) -> (r: Result<Self, XOPosError>)
        ensures
            row >= 3 ==> r == Err::<Self, XOPosError>(XOPosError::InvalidXORow { row }),
            row < 3 && col >= 3 ==> r == Err::<Self, XOPosError>(XOPosError::InvalidXOCol { col }),
            row < 3 && col < 3 ==> (r matches Ok(p) && p.spec_index() == 3 * row + col),
    {
        if row >= 3 {
            return Err(XOPosError::InvalidXORow { row });
        }
        if col >= 3 {
            return Err(XOPosError::InvalidXOCol { col });
        }

        Ok(XOPos { index: 3 * row + col })
    }

    /// Build a position from a `(column, row)` pair, each in `[0, 2]`.
    ///
    /// Same contract as [`XOPos::row_col`] with the arguments swapped.
    pub fn col_row(col: u32, row: u32) -> (r: Result<Self, XOPosError>)
        ensures
            row >= 3 ==> r == Err::<Self, XOPosError>(XOPosError::InvalidXORow { row }),
            row < 3 && col >= 3 ==> r == Err::<Self, XOPosError>(XOPosError::InvalidXOCol { col }),
            row < 3 && col < 3 ==> (r matches Ok(p) && p.spec_index() == 3 * row + col),
    {
        XOPos::row_col(row, col)
    }

    /// The linear index inside this position; guaranteed to be in `[0, 8]`.
    pub fn as_index(self) -> (r: u32)
        ensures
            r == self.spec_index(),
            r < 9,
    {
        proof {
            use_type_invariant(&self);
        }
        self.index
    }
}

impl TryFrom<u32> for XOPos {
    type Error = XOPosError;

    /// Same contract as [`XOPos::index`]; see [`lemma_try_from_is_index`].
    fn try_from(value: u32) -> (r: Result<XOPos, XOPosError>) {
        XOPos::index(value)
    }
}

impl vstd::std_specs::convert::TryFromSpecImpl<u32> for XOPos {
    open spec fn obeys_try_from_spec() -> bool {
        true
    }

    closed spec fn try_from_spec(value: u32) -> Result<XOPos, XOPosError> {
        if value < 9 {
            Ok(XOPos { index: value })
        } else {
            Err(XOPosError::InvalidXOIndex { index: value })
        }
    }
}

/// Converting a `u32` through `TryFrom` checks and wraps the index exactly
/// as [`XOPos::index`] does.
pub proof fn lemma_try_from_is_index(value: u32)
    ensures
        value < 9 ==> (<XOPos as vstd::std_specs::convert::TryFromSpec<u32>>::try_from_spec(
            value,
        ) matches Ok(p) && p.spec_index() == value),
        value >= 9 ==> <XOPos as vstd::std_specs::convert::TryFromSpec<u32>>::try_from_spec(value)
            == Err::<XOPos, XOPosError>(XOPosError::InvalidXOIndex { index: value }),
{
}

} // verus!

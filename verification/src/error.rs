//! Errors of the index constructors and of parsing.

use vstd::prelude::*;

verus! {

/// Why an integer could not be taken as an index.
#[derive(Debug, Clone, Copy, PartialEq, Eq, Structural)]
pub enum OneBasedError {
    /// Zero was given as a 1-based index.
    ZeroIndex,
    /// The largest value of the integer type was given as a 0-based index:
    /// its 1-based value does not fit in the type.
    OverflowIndex,
}

impl OneBasedError {
    /// The text of the error.
    pub open spec fn message(self) -> Seq<char> {
        match self {
            OneBasedError::ZeroIndex => "0 passed as 1-based index"@,
            OneBasedError::OverflowIndex => "unsigned::MAX cannot be used as 0-based index"@,
        }
    }

    /// Renders the error as text.
    pub fn to_string(&self) -> (text: String)
        ensures
            text@ == self.message(),
    {
        match self {
            OneBasedError::ZeroIndex => "0 passed as 1-based index".to_owned(),
            OneBasedError::OverflowIndex => {
                "unsigned::MAX cannot be used as 0-based index".to_owned()
            },
        }
    }
}

/// Why a text could not be read as a 1-based index.
#[derive(Debug, Clone, Copy, PartialEq, Eq, Structural)]
pub enum IntErrorKind {
    /// The text is empty.
    Empty,
    /// The text holds a character that is not a decimal digit. A sign is such
    /// a character.
    InvalidDigit,
    /// The number is too large for the integer type.
    PosOverflow,
    /// The number is zero.
    Zero,
}

/// The error of parsing an index from text.
#[derive(Debug, Clone, Copy, PartialEq, Eq, Structural)]
pub struct ParseOneBasedError {
    /// Why the parse failed.
    pub kind: IntErrorKind,
}

impl ParseOneBasedError {
    /// Why the parse failed.
    pub fn kind(&self) -> (kind: &IntErrorKind)
        ensures
            *kind == self.kind,
    {
        &self.kind
    }
}

} // verus!

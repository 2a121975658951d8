//! The ways in which a row operation can be refused.

use vstd::prelude::*;

verus! {

/// Why a row operation left the matrix untouched.
#[derive(Debug, PartialEq, Eq, Structural)]
pub enum Error {
    /// A row index does not name a row of the matrix.
    OutOfBounds,
    /// The indices name rows, but not a combination the operation accepts.
    WrongOperation,
}

impl Error {
    /// The text that describes this error to a reader.
    pub open spec fn description(&self) -> Seq<char> {
        match self {
            Error::OutOfBounds => "invalid row: out of bounds"@,
            Error::WrongOperation => "there is an operation better suited for this"@,
        }
    }

    /// Renders the error as text.
    pub fn message(&self) -> (text: String)
        ensures
            text@ == self.description(),
    {
        match self {
            Error::OutOfBounds => "invalid row: out of bounds".to_owned(),
            Error::WrongOperation => "there is an operation better suited for this".to_owned(),
        }
    }
}

} // verus!

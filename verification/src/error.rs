use vstd::prelude::*;
use vstd::std_specs::convert::FromSpecImpl;

use crate::fen::FenError;

verus! {

/// A singular type for all errors that could happen when using this library.
#[derive(Clone, Debug, PartialEq, Eq, PartialOrd, Ord, Structural)]
#[non_exhaustive]
pub enum Error {
    InvalidFen,
    InvalidPosition,
}

impl Error {
    /// The text that describes the error.
    pub open spec fn spec_message(self) -> Seq<char> {
        match self {
            Error::InvalidFen => "Invalid FEN input"@,
            Error::InvalidPosition => "Invalid position"@,
        }
    }

    /// A description of the error.
    pub fn message(&self) -> (text: &'static str)
        ensures
            text@ == self.spec_message(),
    {
        match self {
            Error::InvalidFen => "Invalid FEN input",
            Error::InvalidPosition => "Invalid position",
        }
    }
}

/// An error of FEN parsing without the rule that the position breaks.
impl From<FenError> for Error {
    fn from(err: FenError) -> (error: Error) {
        match err {
            FenError::InvalidFen => Error::InvalidFen,
            FenError::InvalidPosition(_) => Error::InvalidPosition,
        }
    }
}

impl FromSpecImpl<FenError> for Error {
    open spec fn obeys_from_spec() -> bool {
        true
    }

    open spec fn from_spec(err: FenError) -> Error {
        match err {
            FenError::InvalidFen => Error::InvalidFen,
            FenError::InvalidPosition(_) => Error::InvalidPosition,
        }
    }
}

} // verus!

//! Error handling and related stuff.

use vstd::prelude::*;

verus! {

/// A wrapper type for all errors caused by this crate.
#[non_exhaustive]
#[derive(Clone, Copy, Debug, PartialEq, Eq, Structural)]
pub enum Error {
    /// If an element is accessed whose coordinates (row and column) are not
    /// within the matrix.
    CellOutOfBounds,
    /// If the dimensions of a matrix do not match the dimensions of another
    /// matrix or the length of a slice from which a matrix with specific
    /// dimensions is created, this error will be returned.
    DimensionMismatch,
    /// If the dimensions of a matrix exceed the maximum allowed value, this
    /// error will be returned.
    DimensionsTooLarge,
    /// If a neural network is constructed without any layers.
    EmptyNetwork,
}

/// A specialized `Result` type for this crate.
pub type Result<T> = core::result::Result<T, Error>;

impl Error {
    /// A human readable description of this error.
    pub fn message(&self) -> (text: String)
        ensures
            *self is CellOutOfBounds ==> text@ == "The cell is not part of the matrix."@,
            *self is DimensionMismatch ==> text@
                == "The dimensions of the matrices must be the same or the length of the slice must match the dimensions of the matrix."@,
            *self is DimensionsTooLarge ==> text@
                == "The product of rows and columns must not exceed the maximum usize value, ::std::usize::MAX."@,
            *self is EmptyNetwork ==> text@
                == "The neural network must consist of at least one layer."@,
    {
        match *self {
            Error::CellOutOfBounds => String::from_str("The cell is not part of the matrix."),
            Error::DimensionMismatch => String::from_str(
                "The dimensions of the matrices must be the same or the length of the slice must match the dimensions of the matrix.",
            ),
            Error::DimensionsTooLarge => String::from_str(
                "The product of rows and columns must not exceed the maximum usize value, ::std::usize::MAX.",
            ),
            Error::EmptyNetwork => String::from_str(
                "The neural network must consist of at least one layer.",
            ),
        }
    }

    /// The underlying error this error was caused by, if any.
    ///
    /// None of the crate's errors wraps another error, so this is always
    /// `None`.
    pub fn source(&self) -> (cause: Option<Error>)
        ensures
            cause is None,
    {
        match *self {
            _ => None,
        }
    }
}

} // verus!

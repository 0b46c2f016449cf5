//! A strictly positive size used for matrix rows, matrix columns and layer
//! node counts.

use vstd::prelude::*;

verus! {

/// A strictly positive number of rows, columns or nodes.
///
/// Using `Dimension` for every row and column count makes a zero-sized matrix
/// unrepresentable: a `Dimension` can only be constructed from a non-zero
/// value.
#[derive(Clone, Copy, Debug, PartialEq, Eq, Structural)]
pub struct Dimension {
    value: usize,
}

impl Dimension {
    /// The number this dimension stands for.
    pub closed spec fn spec_value(&self) -> int {
        self.value as int
    }

    #[verifier::type_invariant]
    spec fn positive(self) -> bool {
        1 <= self.value
    }

    /// Create a dimension from a number; a zero value is rejected.
    pub fn new(value: usize) -> (result: Option<Dimension>)
        ensures
            result is Some <==> value != 0,
            result is Some ==> result.unwrap().spec_value() == value,
    {
        if value == 0 {
            None
        } else {
            Some(Dimension { value })
        }
    }

    /// The dimension's value as a plain number.
    pub fn get(&self) -> (value: usize)
        ensures
            value == self.spec_value(),
            1 <= value,
    {
        proof {
            use_type_invariant(self);
        }
        self.value
    }
}

} // verus!

use vstd::prelude::*;
use crate::error::Error;

verus! {

/// The shape of a dense matrix: its number of rows and of columns.
#[derive(Clone, Copy, Debug, PartialEq, Eq, Structural)]
pub struct Shape {
    pub rows: usize,
    pub cols: usize,
}

/// The shape of a column vector of `n` entries.
pub open spec fn column_spec(n: usize) -> Shape {
    Shape { rows: n, cols: 1 }
}

/// Standard matrix multiply: the left operand's columns must equal the
/// right operand's rows.
pub open spec fn product_spec(a: Shape, b: Shape) -> Result<Shape, Error> {
    if a.cols == b.rows {
        Ok(Shape { rows: a.rows, cols: b.cols })
    } else {
        Err(Error::MatrixError(a, b))
    }
}

/// Elementwise combination (add, subtract, multiply): both shapes must be equal.
pub open spec fn combine_spec(a: Shape, b: Shape) -> Result<Shape, Error> {
    if a == b {
        Ok(a)
    } else {
        Err(Error::MatrixError(a, b))
    }
}

impl Shape {
    pub open spec fn transposed_spec(self) -> Shape {
        Shape { rows: self.cols, cols: self.rows }
    }

    /// The shape of a column vector of `n` entries.
    pub fn column(n: usize) -> (r: Shape)
        ensures
            r == column_spec(n),
    {
        Shape { rows: n, cols: 1 }
    }

    /// The shape of the transpose.
    pub fn transposed(self) -> (r: Shape)
        ensures
            r == self.transposed_spec(),
    {
        Shape { rows: self.cols, cols: self.rows }
    }

    /// The shape of `self × b`, or the error that the multiply raises.
    pub fn product(self, b: Shape) -> (r: Result<Shape, Error>)
        ensures
            r == product_spec(self, b),
    {
        if self.cols == b.rows {
            Ok(Shape { rows: self.rows, cols: b.cols })
        } else {
            Err(Error::MatrixError(self, b))
        }
    }

    /// The shape of an elementwise combination of `self` and `b`, or the
    /// error that it raises.
    pub fn combine(self, b: Shape) -> (r: Result<Shape, Error>)
        ensures
            r == combine_spec(self, b),
    {
        if self.rows == b.rows && self.cols == b.cols {
            Ok(self)
        } else {
            Err(Error::MatrixError(self, b))
        }
    }
}

} // verus!

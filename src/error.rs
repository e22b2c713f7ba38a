use vstd::prelude::*;
use crate::shape::Shape;

verus! {

/// Every way in which an operation of the network can fail.
#[derive(Debug, PartialEq, Eq)]
pub enum Error {
    /// The input vector's length differs from the size of the first layer.
    InvalidNumberOfInputs,
    /// The target vector's length differs from the size of the last layer.
    InvalidTargetLength,
    /// A matrix operation was handed operands whose shapes do not fit;
    /// the two shapes are those of the left and the right operand.
    MatrixError(Shape, Shape),
    /// Reading or writing the parameter file failed.
    IoError(String),
    /// The parameter file could not be encoded or decoded.
    SerdeError(String),
}

} // verus!

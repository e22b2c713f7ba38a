use vstd::prelude::*;

verus! {

/// The elementwise nonlinearity applied after each layer's linear combination.
///
/// Each variant stands for a value function and a derivative that is taken
/// of the already-activated value.
#[derive(Clone, Copy, Debug, PartialEq, Eq, Structural)]
pub enum Activation {
    Identity,
    Sigmoid,
    Tanh,
    ReLU,
}

} // verus!

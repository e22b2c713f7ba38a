//! A fully-connected feed-forward network's verified core: the layer
//! topology, the shape rules of every matrix operation of the forward and
//! the backward pass, the training schedule, the choice of saved parameters
//! on load, and a seeded source for initial parameters.
use vstd::prelude::*;

pub mod activation;
pub mod codec;
pub mod error;
pub mod laws;
pub mod passes;
pub mod persist;
pub mod random;
pub mod schedule;
pub mod shape;
pub mod topology;

pub use activation::Activation;
pub use codec::{from_rows, to_rows};
pub use error::Error;
pub use passes::{backward_shapes, check_parameters, forward_shapes};
pub use persist::take_parameters;
pub use random::Seeded;
pub use schedule::{progress_due, Schedule, Step};
pub use shape::Shape;
pub use topology::Topology;

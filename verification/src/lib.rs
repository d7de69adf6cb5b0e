//! A fixed-capacity, array-backed vector (`ArrayVec`) with verified
//! operations, and property checks that exercise it.

pub mod arrayvec;
pub mod etna;
pub mod inputs;
pub mod json;
pub mod runner;
pub mod text;

pub use arrayvec::ArrayVec;
pub use arrayvec::Bound;

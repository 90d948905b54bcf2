//! Small self-contained routines that the examples demonstrate.

pub mod borrowing;
pub mod coins;
pub mod numbers;
pub mod options;
pub mod shapes;
pub mod tuples;
pub mod validation;

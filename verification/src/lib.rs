//! An in-memory calculator over signed 64-bit integers.
//!
//! Every operation is checked for overflow and, when it succeeds, recorded in
//! an ordered history that can be rendered as text, replayed and cleared.

pub mod calculator;
pub mod decimal;
pub mod operation;
pub mod render;

pub use crate::calculator::Calculator;
pub use crate::operation::{Operation, OperationType};

//! Peano numerals: natural numbers as `Successor` wrappers nested around
//! `Zero`, with addition and multiplication defined by structural recursion
//! on the left operand.

pub mod laws;
pub mod natural;
pub mod peano;

pub use natural::{Nat, Succ};
pub use peano::Peano;

//! A minimal library of multi-sided values (dice, coins) and the arithmetic
//! that steps or rotates them around a fixed-size cyclic value space, plus
//! rollers that pick a new side, either randomly or not at all.

pub mod impls;
pub mod items;
pub mod simple;
pub mod traits;

pub use items::{NumericDie, RngRoller, D20, D6};
pub use traits::{Roll, RollMut};

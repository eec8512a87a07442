//! Simple implementations that can help explain the crate to first-time
//! users.
//!
//! If you just need a coin, and aren't looking to further customize, look
//! no further.

pub mod coin;
pub mod counter;

pub use coin::{CoinFacing, SimpleCoin};
pub use counter::SimpleCounter;

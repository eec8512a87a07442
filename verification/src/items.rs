//! "Physical" objects, or objects that act on physical objects.
//!
//! A typical app will create and manage one or more dice, typically
//! [`NumericDie`] (simpler than [`SliceDie`]), often through one of the
//! convenience aliases such as [`D6`], and either work with the dice
//! directly or use a roller, typically [`RngRoller`].

pub mod numeric;
pub mod roller;
pub mod slice;

pub use numeric::{NumericDie, D10, D12, D20, D4, D6, D8};
pub use roller::{NopRoller, RngRoller};
pub use slice::SliceDie;

use vstd::prelude::*;

verus! {

/// The error reported when a value would be constructed out of range: from
/// a number outside a die's sides, from a position past the end of a slice
/// of labels, or from an empty slice of labels.
#[derive(Clone, Copy, Debug, PartialEq, Eq)]
pub struct RangeError;

} // verus!

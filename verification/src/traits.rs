//! Behaviors that multi-sided objects can declare.
//!
//! - [`sided::Sided`] is the capability every multi-sided value shares: a
//!   fixed side count and a current position, used by every contract here.
//! - [`numeric::Numeric`] allows flexibility when defining numeric dice.
//! - [`polyhedral::Polyhedral`] names types with a known number of sides.
//! - [`rotate::Rotate`] and [`roll::Roll`] create or mutate objects with
//!   multiple sides.

pub mod numeric;
pub mod polyhedral;
pub mod roll;
pub mod rotate;
pub mod sided;

pub use numeric::Numeric;
pub use polyhedral::Polyhedral;
pub use roll::{Roll, RollMut};
pub use rotate::{Rotate, RotateMut, Step, StepMut};
pub use sided::Sided;

//! Traits for rollers: objects that pick a new side of a multi-sided value.

use crate::traits::polyhedral::Polyhedral;
use crate::traits::rotate::{Rotate, RotateMut};
use vstd::prelude::*;

verus! {

/// A trait that creates new elements based off ones which [`Rotate`] and
/// are [`Polyhedral`].
///
/// In practice, this allows a die roller to create a new (immutable) die by
/// picking a side of one of the possible dice; how the side is picked is up
/// to the roller.
pub trait Roll {
    /// Rotates an entity, returning the result, where the amount of
    /// rotation is the roller's own business.
    fn roll<T: Rotate + Polyhedral>(&self, value: &T) -> (r: T)
        requires
            value.inv(),
    ;
}

/// A trait that mutates existing elements which [`RotateMut`] and are
/// [`Polyhedral`].
///
/// In practice, this allows a die roller to turn a die in place to one of
/// its sides; how the side is picked is up to the roller.
pub trait RollMut {
    /// Rotates an entity in place, where the amount of rotation is the
    /// roller's own business.
    fn roll_mut<T: RotateMut + Polyhedral>(&self, value: &mut T)
        requires
            old(value).inv(),
        ensures
            final(value).inv(),
            old(value).congruent(final(value)),
            final(value).spec_sides() == old(value).spec_sides(),
    ;
}

} // verus!

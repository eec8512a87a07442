//! Rollers: objects that pick a new side of a multi-sided value.

use crate::impls::{lemma_rotated_index_in_range, rotated_index};
use crate::traits::polyhedral::Polyhedral;
use crate::traits::roll::{Roll, RollMut};
use crate::traits::rotate::{Rotate, RotateMut};
use crate::traits::sided::Sided;
use vstd::arithmetic::div_mod::{
    lemma_add_mod_noop_right, lemma_mod_division_less_than_divisor, lemma_small_mod,
};
use vstd::prelude::*;

verus! {

/// Declares fastrand's generator type so that verified code can hold one;
/// its inside stays opaque here.
#[verifier::external_type_specification]
#[verifier::external_body]
pub struct ExRng(fastrand::Rng);

/// Relies on fastrand::Rng::new: creating a generator never fails and needs
/// no seed.
pub assume_specification[ fastrand::Rng::new ]() -> fastrand::Rng;

/// Relies on fastrand::Rng::clone: cloning deterministically derives a new
/// generator; nothing is promised of its draws.
pub assume_specification[ <fastrand::Rng as core::clone::Clone>::clone ](
    rng: &fastrand::Rng,
) -> fastrand::Rng;

/// Relies on fastrand::Rng::usize: a draw from the non-empty range
/// `0..sides` lies in that range.
#[verifier::external_body]
fn draw_amount(rng: &fastrand::Rng, sides: usize) -> (r: usize)
    requires
        1 <= sides,
    ensures
        r < sides,
{
    rng.usize(0..sides)
}

/// Declares that it rolls entities, but does nothing.
///
/// Rolling with a `NopRoller` never changes the rolled value, no matter how
/// often it is applied. It expresses "no randomness" explicitly, which is
/// handy for deterministic tests.
#[derive(Clone, Default)]
pub struct NopRoller;

impl NopRoller {
    /// Creates a NOP (no-op) roller that doesn't actually roll anything.
    pub fn new() -> (r: Self)
        ensures
            r == (NopRoller {}),
    {
        NopRoller
    }
}

impl Roll for NopRoller {
    /// Returns a clone of the value, untouched.
    fn roll<T: Rotate + Polyhedral>(&self, value: &T) -> (r: T)
        ensures
            cloned(*value, r),
    {
        value.clone()
    }
}

impl RollMut for NopRoller {
    /// Leaves the value exactly as it was.
    fn roll_mut<T: RotateMut + Polyhedral>(&self, value: &mut T)
        ensures
            *final(value) == *old(value),
    {
        proof {
            old(value).lemma_congruent_refl();
        }
        /* Intentionally left blank. */
    }
}

/// Rolls entities using the `fastrand` crate.
///
/// Each roll draws an amount in `0..sides` from the wrapped generator and
/// rotates the value by that amount, so a single roll can reach every side.
#[derive(Clone, Default)]
pub struct RngRoller(fastrand::Rng);

impl RngRoller {
    /// Creates a new roller that creates a default RNG.
    pub fn new() -> Self {
        RngRoller(fastrand::Rng::new())
    }

    /// Creates a new roller that delegates to the given RNG.
    pub fn from(rng: fastrand::Rng) -> Self {
        RngRoller(rng)
    }
}

impl Roll for RngRoller {
    /// Returns the value turned to a side reached by rotating forward by
    /// less than one full turn; which side depends on the wrapped RNG.
    fn roll<T: Rotate + Polyhedral>(&self, value: &T) -> (r: T)
        ensures
            r.inv(),
            value.congruent(&r),
            r.spec_sides() == value.spec_sides(),
            exists|amount: int|
                0 <= amount < value.spec_sides() && r.spec_position() == rotated_index(
                    value.spec_sides() as int,
                    value.spec_position() as int,
                    amount,
                ),
    {
        proof {
            value.lemma_inv();
        }
        let sides = T::sides();
        let amount = draw_amount(&self.0, sides);
        let r = value.rotate(amount as i8);
        proof {
            lemma_roll_reaches(
                value.spec_sides() as int,
                value.spec_position() as int,
                amount as i8 as int,
                r.spec_position() as int,
            );
        }
        r
    }
}

impl RollMut for RngRoller {
    /// Turns the value in place to a side reached by rotating forward by
    /// less than one full turn; which side depends on the wrapped RNG.
    fn roll_mut<T: RotateMut + Polyhedral>(&self, value: &mut T)
        ensures
            exists|amount: int|
                0 <= amount < old(value).spec_sides() && final(value).spec_position()
                    == rotated_index(
                    old(value).spec_sides() as int,
                    old(value).spec_position() as int,
                    amount,
                ),
    {
        proof {
            old(value).lemma_inv();
        }
        let sides = T::sides();
        let amount = draw_amount(&self.0, sides);
        let ghost before = *value;
        value.rotate_mut(amount as i8);
        proof {
            lemma_roll_reaches(
                before.spec_sides() as int,
                before.spec_position() as int,
                amount as i8 as int,
                value.spec_position() as int,
            );
        }
    }
}

/// Whatever signed amount a roll rotated by, the side it reaches is also
/// reached by rotating forward by some amount smaller than one full turn.
proof fn lemma_roll_reaches(size: int, start: int, amount: int, reached: int)
    requires
        0 < size,
        0 <= start < size,
        reached == rotated_index(size, start, amount),
    ensures
        exists|a: int|
            0 <= a < size && reached == rotated_index(size, start, a),
{
    let a = (reached - start) % size;
    lemma_rotated_index_in_range(size, start, amount);
    lemma_mod_division_less_than_divisor(reached - start, size);
    // rotated_index(size, start, a) == (start + (reached - start) % size) % size
    lemma_add_mod_noop_right(start, reached - start, size);
    lemma_small_mod(reached as nat, size as nat);
    assert(rotated_index(size, start, a) == reached);
}

} // verus!

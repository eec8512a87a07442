//! A die over an arbitrary, fixed slice of values.

use crate::impls::{lemma_rotated_index_in_range, rotate_backward_usize, rotate_forward_usize};
use crate::items::RangeError;
use crate::traits::polyhedral::Polyhedral;
use crate::traits::rotate::{Rotate, RotateMut, Step, StepMut};
use crate::traits::sided::Sided;
use vstd::prelude::*;

verus! {

/// A die that has a known and fixed set of values, and a position that
/// points at the current value.
///
/// When you think of dice, [`crate::items::NumericDie`] is both simpler to
/// use and more typical (a range of numbers). However, if that number would
/// be mapped back to a non-numeric value, for example a discrete value, an
/// enum, or to have a weighted effect, a `SliceDie` holds those values
/// directly. The slice is borrowed, never mutated, and may repeat values.
#[derive(Clone, Copy, Debug, PartialEq, Eq)]
pub struct SliceDie<'a, T, const LENGTH: usize> {
    position: usize,
    elements: &'a [T; LENGTH],
}

impl<'a, T, const LENGTH: usize> SliceDie<'a, T, LENGTH> {
    /// The ordered labels this die ranges over.
    pub closed spec fn spec_elements(&self) -> Seq<T> {
        self.elements@
    }

    /// Ranging over the same sides means holding equal labels.
    pub proof fn lemma_congruent_elements(&self, other: &Self)
        ensures
            self.congruent(other) <==> self.spec_elements() == other.spec_elements(),
    {
    }

    /// Creates a new slice die from the given possible sides of the die.
    ///
    /// The current position is set to `0`, or the first element in the
    /// slice, which must not be empty.
    pub fn new(elements: &'a [T; LENGTH]) -> (r: Self)
        requires
            0 < LENGTH,
        ensures
            r.inv(),
            r.spec_position() == 0,
            r.spec_elements() == elements@,
    {
        SliceDie { position: 0, elements }
    }

    /// Creates a new slice die over the given sides, or reports a
    /// [`RangeError`] exactly when the slice is empty.
    pub fn try_new(elements: &'a [T; LENGTH]) -> (r: Result<Self, RangeError>)
        ensures
            match r {
                Ok(die) => {
                    &&& 0 < LENGTH
                    &&& die.inv()
                    &&& die.spec_position() == 0
                    &&& die.spec_elements() == elements@
                },
                Err(_) => LENGTH == 0,
            },
    {
        if LENGTH == 0 {
            Err(RangeError)
        } else {
            Ok(SliceDie { position: 0, elements })
        }
    }

    /// Creates a new die starting at the given position, which must lie
    /// within the slice.
    pub fn with_position(position: usize, elements: &'a [T; LENGTH]) -> (r: Self)
        requires
            position < LENGTH,
        ensures
            r.inv(),
            r.spec_position() == position,
            r.spec_elements() == elements@,
    {
        SliceDie { position, elements }
    }

    /// Creates a new die starting at the given position, or reports a
    /// [`RangeError`] exactly when the position lies past the end of the
    /// slice.
    pub fn try_with_position(position: usize, elements: &'a [T; LENGTH]) -> (r: Result<
        Self,
        RangeError,
    >)
        ensures
            match r {
                Ok(die) => {
                    &&& position < LENGTH
                    &&& die.inv()
                    &&& die.spec_position() == position
                    &&& die.spec_elements() == elements@
                },
                Err(_) => position >= LENGTH,
            },
    {
        if position < LENGTH {
            Ok(SliceDie { position, elements })
        } else {
            Err(RangeError)
        }
    }

    /// Returns the current position within the die, in `0..LENGTH`.
    pub fn position(&self) -> (r: usize)
        ensures
            r == self.spec_position(),
    {
        self.position
    }

    /// Returns a reference to the sides within the die.
    pub fn sides(&self) -> (r: &'a [T; LENGTH])
        ensures
            r@ == self.spec_elements(),
    {
        self.elements
    }

    /// Returns a reference to the currently faced value.
    pub fn value(&self) -> (r: &T)
        requires
            self.inv(),
        ensures
            *r == self.spec_elements()[self.spec_position() as int],
    {
        &self.elements[self.position]
    }
}

impl<'a, T, const LENGTH: usize> Sided for SliceDie<'a, T, LENGTH> {
    open spec fn spec_sides(&self) -> nat {
        LENGTH as nat
    }

    closed spec fn spec_position(&self) -> nat {
        self.position as nat
    }

    closed spec fn inv(&self) -> bool {
        0 < LENGTH && self.position < LENGTH
    }

    closed spec fn congruent(&self, other: &Self) -> bool {
        self.elements@ == other.elements@
    }

    proof fn lemma_inv(&self) {
    }

    proof fn lemma_congruent_refl(&self) {
    }

    proof fn lemma_congruent_sides(&self, other: &Self) {
    }

    proof fn lemma_congruent_trans(&self, b: &Self, c: &Self) {
    }
}

impl<'a, T, const LENGTH: usize> Polyhedral for SliceDie<'a, T, LENGTH> {
    fn sides() -> usize {
        LENGTH
    }
}

impl<'a, T, const LENGTH: usize> Step for SliceDie<'a, T, LENGTH> {
    /// Rotates the die forward by one element.
    ///
    /// If the position would have surpassed the last element, it returns
    /// back to the first.
    fn next(&self) -> Self {
        let next: usize = if self.position + 1 == LENGTH {
            0
        } else {
            self.position + 1
        };
        SliceDie { position: next, elements: self.elements }
    }

    /// Rotates the die backwards by one element.
    ///
    /// If the position would have surpassed the first element, it returns
    /// back to the last.
    fn back(&self) -> Self {
        let back: usize = if self.position == 0 {
            LENGTH - 1
        } else {
            self.position - 1
        };
        SliceDie { position: back, elements: self.elements }
    }
}

impl<'a, T, const LENGTH: usize> StepMut for SliceDie<'a, T, LENGTH> {
    /// Rotates the die forward by one element, in place.
    fn next_mut(&mut self) {
        let next: usize = if self.position + 1 == LENGTH {
            0
        } else {
            self.position + 1
        };
        self.position = next;
    }

    /// Rotates the die backwards by one element, in place.
    fn back_mut(&mut self) {
        let back: usize = if self.position == 0 {
            LENGTH - 1
        } else {
            self.position - 1
        };
        self.position = back;
    }
}

impl<'a, T, const LENGTH: usize> Rotate for SliceDie<'a, T, LENGTH> where T: Clone {
    /// Rotates by any signed amount in one modular-arithmetic step,
    /// replacing the naive default.
    fn rotate(&self, amount: i8) -> Self {
        let position: usize = if amount >= 0 {
            rotate_forward_usize::<LENGTH>(self.position, amount as usize)
        } else {
            rotate_backward_usize::<LENGTH>(self.position, (-(amount as i32)) as usize)
        };
        proof {
            lemma_rotated_index_in_range(LENGTH as int, self.position as int, amount as int);
        }
        SliceDie { position, elements: self.elements }
    }
}

impl<'a, T, const LENGTH: usize> RotateMut for SliceDie<'a, T, LENGTH> {
    /// Rotates by any signed amount in one modular-arithmetic step, in
    /// place, replacing the naive default.
    fn rotate_mut(&mut self, amount: i8) {
        let position: usize = if amount >= 0 {
            rotate_forward_usize::<LENGTH>(self.position, amount as usize)
        } else {
            rotate_backward_usize::<LENGTH>(self.position, (-(amount as i32)) as usize)
        };
        proof {
            lemma_rotated_index_in_range(LENGTH as int, old(self).position as int, amount as int);
        }
        self.position = position;
    }
}

} // verus!

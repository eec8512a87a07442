//! A counter that cycles through every `i8` value.

use vstd::prelude::*;

use crate::traits::polyhedral::Polyhedral;
use crate::traits::rotate::{Rotate, RotateMut, Step, StepMut};
use crate::traits::sided::Sided;

verus! {

/// A value that cycles through all 256 `i8` counts, wrapping at either end.
///
/// Unlike the dice, this type keeps the naive default implementations of
/// [`Rotate`] and [`RotateMut`], so it shows that stepping one side at a
/// time reaches exactly the side that direct modular arithmetic names.
#[derive(Clone, Copy, PartialEq, Eq, Debug)]
pub struct SimpleCounter(i8);

impl SimpleCounter {
    /// The count currently held, in `-128..=127`: the zero-based position
    /// within the cycle, shifted down by `128`.
    pub open spec fn spec_count(&self) -> int {
        self.spec_position() - 128
    }

    /// Creates a new counter holding the given count.
    pub fn new(count: i8) -> (r: Self)
        ensures
            r.spec_count() == count as int,
    {
        SimpleCounter(count)
    }

    /// Returns the count currently held.
    pub fn value(&self) -> (r: i8)
        ensures
            r as int == self.spec_count(),
    {
        self.0
    }
}

impl Sided for SimpleCounter {
    open spec fn spec_sides(&self) -> nat {
        256
    }

    closed spec fn spec_position(&self) -> nat {
        (self.0 as int + 128) as nat
    }

    open spec fn inv(&self) -> bool {
        true
    }

    open spec fn congruent(&self, other: &Self) -> bool {
        true
    }

    proof fn lemma_inv(&self) {
    }

    proof fn lemma_congruent_refl(&self) {
    }

    proof fn lemma_congruent_sides(&self, other: &Self) {
    }

    proof fn lemma_congruent_trans(&self, b: &Self, c: &Self) {
    }
}

impl Polyhedral for SimpleCounter {
    fn sides() -> usize {
        256
    }
}

impl Step for SimpleCounter {
    /// Counts up by one, wrapping from `127` back to `-128`.
    fn next(&self) -> Self {
        if self.0 == 127 {
            SimpleCounter(-128)
        } else {
            SimpleCounter(self.0 + 1)
        }
    }

    /// Counts down by one, wrapping from `-128` back to `127`.
    fn back(&self) -> Self {
        if self.0 == -128 {
            SimpleCounter(127)
        } else {
            SimpleCounter(self.0 - 1)
        }
    }
}

impl StepMut for SimpleCounter {
    /// Counts up by one in place, wrapping from `127` back to `-128`.
    fn next_mut(&mut self) {
        let stepped = self.next();
        self.0 = stepped.0;
    }

    /// Counts down by one in place, wrapping from `-128` back to `127`.
    fn back_mut(&mut self) {
        let stepped = self.back();
        self.0 = stepped.0;
    }
}

impl Rotate for SimpleCounter {

}

impl RotateMut for SimpleCounter {

}

} // verus!

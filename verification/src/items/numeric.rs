//! A die that holds one number in a contiguous range.

use crate::impls::{lemma_rotated_index_in_range, rotate_backward_usize, rotate_forward_usize};
use crate::items::RangeError;
use crate::traits::numeric::Numeric;
use crate::traits::polyhedral::Polyhedral;
use crate::traits::rotate::{Rotate, RotateMut, Step, StepMut};
use crate::traits::sided::Sided;
use vstd::prelude::*;

verus! {

/// A die that starts at `1` and has a defined maximum numeric value.
///
/// A numeric die is the simplest form of die, and at runtime is represented
/// by a single number in `1..=MAXIMUM`; its zero-based position within the
/// cycle is that number minus one. Every operation keeps the number in
/// range.
#[derive(Clone, Copy, Debug, PartialEq, Eq)]
pub struct NumericDie<T, const MAXIMUM: usize>(T) where T: Numeric;

/// A conveniently provided 4-sided numeric die.
pub type D4 = NumericDie<u8, 4>;

/// A conveniently provided 6-sided numeric die.
pub type D6 = NumericDie<u8, 6>;

/// A conveniently provided 8-sided numeric die.
pub type D8 = NumericDie<u8, 8>;

/// A conveniently provided 10-sided numeric die.
pub type D10 = NumericDie<u8, 10>;

/// A conveniently provided 12-sided numeric die.
pub type D12 = NumericDie<u8, 12>;

/// A conveniently provided 20-sided numeric die.
pub type D20 = NumericDie<u8, 20>;

impl<T, const MAXIMUM: usize> NumericDie<T, MAXIMUM> where T: Numeric {
    /// Whether this die shape is usable: at least one side, and every side
    /// representable in `T`.
    pub open spec fn spec_sides_ok() -> bool {
        1 <= MAXIMUM as int <= T::spec_max()
    }

    /// The number currently faced, in `1..=MAXIMUM`: one more than the
    /// zero-based position within the cycle.
    pub open spec fn spec_value(&self) -> int {
        self.spec_position() + 1int
    }

    /// Creates a new die starting at `1`.
    pub fn new() -> (r: Self)
        requires
            Self::spec_sides_ok(),
        ensures
            r.inv(),
            r.spec_value() == 1,
    {
        NumericDie(T::from_usize(1))
    }

    /// Creates a new die starting at the given `value`, which must lie in
    /// `1..=MAXIMUM`.
    pub fn from(value: T) -> (r: Self)
        requires
            Self::spec_sides_ok(),
            1 <= value.as_int() <= MAXIMUM as int,
        ensures
            r.inv(),
            r.spec_value() == value.as_int(),
    {
        NumericDie(value)
    }

    /// Creates a new die starting at the given `value`, or reports a
    /// [`RangeError`] exactly when the value lies outside `1..=MAXIMUM`.
    pub fn try_from(value: T) -> (r: Result<Self, RangeError>)
        requires
            Self::spec_sides_ok(),
        ensures
            match r {
                Ok(die) => {
                    &&& 1 <= value.as_int() <= MAXIMUM as int
                    &&& die.inv()
                    &&& die.spec_value() == value.as_int()
                },
                Err(_) => !(1 <= value.as_int() <= MAXIMUM as int),
            },
    {
        if value.in_range(MAXIMUM) {
            Ok(NumericDie(value))
        } else {
            Err(RangeError)
        }
    }

    /// Returns the total possible sides for the die.
    pub fn sides() -> (n: usize)
        ensures
            n == MAXIMUM,
    {
        MAXIMUM
    }

    /// Returns a short label for the die: its side count and the value
    /// currently faced, as `D<sides>:<value>`.
    ///
    /// Relies on std's `format!` only to render the two numbers.
    #[verifier::external_body]
    pub fn describe(&self) -> String {
        format!("D{}:{}", MAXIMUM, self.0.as_usize())
    }

    /// Returns the currently faced value.
    pub fn value(&self) -> (r: T)
        requires
            self.inv(),
        ensures
            r.as_int() == self.spec_value(),
    {
        self.0
    }
}

impl<T, const MAXIMUM: usize> Default for NumericDie<T, MAXIMUM> where T: Numeric {
    /// Creates a new die starting at `1`.
    fn default() -> (r: Self)
        ensures
            r.spec_value() == 1,
            Self::spec_sides_ok() ==> r.inv(),
    {
        proof {
            T::lemma_spec_max();
        }
        NumericDie(T::from_usize(1))
    }
}

impl<T, const MAXIMUM: usize> Sided for NumericDie<T, MAXIMUM> where T: Numeric {
    open spec fn spec_sides(&self) -> nat {
        MAXIMUM as nat
    }

    closed spec fn spec_position(&self) -> nat {
        (self.0.as_int() - 1) as nat
    }

    closed spec fn inv(&self) -> bool {
        Self::spec_sides_ok() && 1 <= self.0.as_int() <= MAXIMUM as int
    }

    open spec fn congruent(&self, other: &Self) -> bool {
        true
    }

    proof fn lemma_inv(&self) {
    }

    proof fn lemma_congruent_refl(&self) {
    }

    proof fn lemma_congruent_sides(&self, other: &Self) {
    }

    proof fn lemma_congruent_trans(&self, b: &Self, c: &Self) {
    }
}

impl<T, const MAXIMUM: usize> Polyhedral for NumericDie<T, MAXIMUM> where T: Numeric {
    fn sides() -> usize {
        Self::sides()
    }
}

impl<T, const MAXIMUM: usize> Step for NumericDie<T, MAXIMUM> where T: Numeric {
    /// Rotates the die forward by 1.
    ///
    /// If the value would have surpassed the maximum, it returns back to
    /// the minimum value.
    fn next(&self) -> Self {
        let value: usize = self.0.as_usize();
        let next_value: usize = if value == MAXIMUM {
            1
        } else {
            value + 1
        };
        NumericDie(T::from_usize(next_value))
    }

    /// Rotates the die backwards by 1.
    ///
    /// If the value would have surpassed the minimum, it returns back to
    /// the maximum value.
    fn back(&self) -> Self {
        let value: usize = self.0.as_usize();
        let back_value: usize = if value == 1 {
            MAXIMUM
        } else {
            value - 1
        };
        NumericDie(T::from_usize(back_value))
    }
}

impl<T, const MAXIMUM: usize> StepMut for NumericDie<T, MAXIMUM> where T: Numeric {
    /// Rotates the die forward by 1, in place.
    fn next_mut(&mut self) {
        let value: usize = self.0.as_usize();
        let next_value: usize = if value == MAXIMUM {
            1
        } else {
            value + 1
        };
        self.0 = T::from_usize(next_value);
    }

    /// Rotates the die backwards by 1, in place.
    fn back_mut(&mut self) {
        let value: usize = self.0.as_usize();
        let back_value: usize = if value == 1 {
            MAXIMUM
        } else {
            value - 1
        };
        self.0 = T::from_usize(back_value);
    }
}

impl<T, const MAXIMUM: usize> Rotate for NumericDie<T, MAXIMUM> where T: Numeric {
    /// Rotates by any signed amount in one modular-arithmetic step,
    /// replacing the naive default.
    fn rotate(&self, amount: i8) -> Self {
        let value: usize = self.0.as_usize();
        let index: usize = if amount >= 0 {
            rotate_forward_usize::<MAXIMUM>(value - 1, amount as usize)
        } else {
            rotate_backward_usize::<MAXIMUM>(value - 1, (-(amount as i32)) as usize)
        };
        proof {
            lemma_rotated_index_in_range(MAXIMUM as int, value as int - 1, amount as int);
        }
        NumericDie(T::from_usize(index + 1))
    }
}

impl<T, const MAXIMUM: usize> RotateMut for NumericDie<T, MAXIMUM> where T: Numeric {
    /// Rotates by any signed amount in one modular-arithmetic step, in
    /// place, replacing the naive default.
    fn rotate_mut(&mut self, amount: i8) {
        let value: usize = self.0.as_usize();
        let index: usize = if amount >= 0 {
            rotate_forward_usize::<MAXIMUM>(value - 1, amount as usize)
        } else {
            rotate_backward_usize::<MAXIMUM>(value - 1, (-(amount as i32)) as usize)
        };
        proof {
            lemma_rotated_index_in_range(MAXIMUM as int, value as int - 1, amount as int);
        }
        self.0 = T::from_usize(index + 1);
    }
}

} // verus!

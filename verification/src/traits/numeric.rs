//! A trait that describes a value that behaves like a number.

use vstd::prelude::*;

verus! {

/// A value that behaves like an unsigned number, so a numeric die can hold
/// one side as a single value.
///
/// `Numeric` indicates that the type stands for one number per value, can
/// be converted to and from a `usize`, and is trivial to copy.
pub trait Numeric: Sized + Copy {
    /// The number this value stands for.
    spec fn as_int(&self) -> int;

    /// The largest number a value of this type can stand for.
    spec fn spec_max() -> int;

    /// Every `Numeric` type can stand at least for `1`, a die's lowest
    /// side.
    proof fn lemma_spec_max()
        ensures
            1 <= Self::spec_max(),
    ;

    /// Creates the value standing for the provided number.
    fn from_usize(number: usize) -> (r: Self)
        requires
            number as int <= Self::spec_max(),
        ensures
            r.as_int() == number as int,
    ;

    /// Returns the number this value stands for.
    fn as_usize(&self) -> (r: usize)
        requires
            0 <= self.as_int() <= usize::MAX as int,
        ensures
            r as int == self.as_int(),
    ;

    /// Reports whether this value stands for a number in `1..=maximum`.
    fn in_range(&self, maximum: usize) -> (r: bool)
        ensures
            r <==> 1 <= self.as_int() <= maximum as int,
    ;
}

impl Numeric for u8 {
    open spec fn as_int(&self) -> int {
        *self as int
    }

    open spec fn spec_max() -> int {
        255
    }

    proof fn lemma_spec_max() {
    }

    fn from_usize(number: usize) -> u8 {
        number as u8
    }

    fn as_usize(&self) -> usize {
        *self as usize
    }

    fn in_range(&self, maximum: usize) -> bool {
        1 <= *self && *self as usize <= maximum
    }
}

impl Numeric for u16 {
    open spec fn as_int(&self) -> int {
        *self as int
    }

    open spec fn spec_max() -> int {
        65535
    }

    proof fn lemma_spec_max() {
    }

    fn from_usize(number: usize) -> u16 {
        number as u16
    }

    fn as_usize(&self) -> usize {
        *self as usize
    }

    fn in_range(&self, maximum: usize) -> bool {
        1 <= *self && *self as usize <= maximum
    }
}

impl Numeric for u32 {
    open spec fn as_int(&self) -> int {
        *self as int
    }

    open spec fn spec_max() -> int {
        4294967295
    }

    proof fn lemma_spec_max() {
    }

    fn from_usize(number: usize) -> u32 {
        number as u32
    }

    fn as_usize(&self) -> usize {
        *self as usize
    }

    fn in_range(&self, maximum: usize) -> bool {
        1 <= *self && *self as u64 <= maximum as u64
    }
}

impl Numeric for u64 {
    open spec fn as_int(&self) -> int {
        *self as int
    }

    open spec fn spec_max() -> int {
        18446744073709551615
    }

    proof fn lemma_spec_max() {
    }

    fn from_usize(number: usize) -> u64 {
        number as u64
    }

    fn as_usize(&self) -> usize {
        *self as usize
    }

    fn in_range(&self, maximum: usize) -> bool {
        1 <= *self && *self <= maximum as u64
    }
}

impl Numeric for u128 {
    open spec fn as_int(&self) -> int {
        *self as int
    }

    open spec fn spec_max() -> int {
        340282366920938463463374607431768211455
    }

    proof fn lemma_spec_max() {
    }

    fn from_usize(number: usize) -> u128 {
        number as u128
    }

    fn as_usize(&self) -> usize {
        *self as usize
    }

    fn in_range(&self, maximum: usize) -> bool {
        1 <= *self && *self <= maximum as u128
    }
}

impl Numeric for usize {
    open spec fn as_int(&self) -> int {
        *self as int
    }

    open spec fn spec_max() -> int {
        usize::MAX as int
    }

    proof fn lemma_spec_max() {
    }

    fn from_usize(number: usize) -> usize {
        number
    }

    fn as_usize(&self) -> usize {
        *self
    }

    fn in_range(&self, maximum: usize) -> bool {
        1 <= *self && *self <= maximum
    }
}

} // verus!

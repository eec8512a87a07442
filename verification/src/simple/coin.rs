//! Just a simple coin, trying to make its way in the universe.

use crate::traits::polyhedral::Polyhedral;
use crate::traits::rotate::{Rotate, RotateMut, Step, StepMut};
use crate::traits::sided::Sided;
use vstd::prelude::*;

verus! {

/// A coin that represents either [`CoinFacing::Heads`] or
/// [`CoinFacing::Tails`], and is a simple example of defining a two-sided
/// [`Polyhedral`] value with this library.
#[derive(Clone, Copy, PartialEq, Eq, Default, Debug)]
pub struct SimpleCoin {
    value: CoinFacing,
}

/// Possible facings for a [`SimpleCoin`].
///
/// This could have been a `bool`, but we would lose clarity of what `true`
/// or `false` means.
///
/// See also: [`SimpleCoin::is_heads`] and [`SimpleCoin::is_tails`].
#[derive(Clone, Copy, PartialEq, Eq, Structural, Default, Debug)]
pub enum CoinFacing {
    #[default]
    Heads,
    Tails,
}

/// The facing on the other side of the given one.
pub open spec fn spec_opposite(facing: CoinFacing) -> CoinFacing {
    match facing {
        CoinFacing::Heads => CoinFacing::Tails,
        CoinFacing::Tails => CoinFacing::Heads,
    }
}

impl SimpleCoin {
    /// The facing currently shown.
    pub closed spec fn spec_facing(&self) -> CoinFacing {
        self.value
    }

    /// Heads is the first side of the coin, tails the second.
    pub proof fn lemma_facing_position(&self)
        ensures
            self.spec_facing() == CoinFacing::Heads <==> self.spec_position() == 0,
            self.spec_facing() == CoinFacing::Tails <==> self.spec_position() == 1,
    {
    }

    /// Creates a new coin with the given value set.
    pub fn new(value: CoinFacing) -> (r: Self)
        ensures
            r.spec_facing() == value,
    {
        SimpleCoin { value }
    }

    /// Creates a new coin with [`CoinFacing::Heads`] set.
    pub fn heads() -> (r: Self)
        ensures
            r.spec_facing() == CoinFacing::Heads,
    {
        Self::new(CoinFacing::Heads)
    }

    /// Creates a new coin with [`CoinFacing::Tails`] set.
    pub fn tails() -> (r: Self)
        ensures
            r.spec_facing() == CoinFacing::Tails,
    {
        Self::new(CoinFacing::Tails)
    }

    /// Returns whether the coin faces heads.
    pub fn is_heads(&self) -> (r: bool)
        ensures
            r <==> self.spec_facing() == CoinFacing::Heads,
    {
        self.value == CoinFacing::Heads
    }

    /// Returns whether the coin faces tails.
    pub fn is_tails(&self) -> (r: bool)
        ensures
            r <==> self.spec_facing() == CoinFacing::Tails,
    {
        self.value == CoinFacing::Tails
    }

    /// Returns the facing currently shown.
    pub fn get(&self) -> (r: CoinFacing)
        ensures
            r == self.spec_facing(),
    {
        self.value
    }

    /// Turns the coin to show the given facing.
    pub fn set(&mut self, value: CoinFacing)
        ensures
            final(self).spec_facing() == value,
    {
        self.value = value;
    }

    /// Turns the coin over, returning the result.
    pub fn swap(&self) -> (r: Self)
        ensures
            r.spec_facing() == spec_opposite(self.spec_facing()),
    {
        self.next()
    }

    /// Turns the coin over in place, returning the new facing.
    pub fn swap_mut(&mut self) -> (r: CoinFacing)
        ensures
            final(self).spec_facing() == spec_opposite(old(self).spec_facing()),
            r == final(self).spec_facing(),
    {
        self.next_mut();
        self.get()
    }
}

impl Sided for SimpleCoin {
    open spec fn spec_sides(&self) -> nat {
        2
    }

    closed spec fn spec_position(&self) -> nat {
        match self.value {
            CoinFacing::Heads => 0,
            CoinFacing::Tails => 1,
        }
    }

    open spec fn inv(&self) -> bool {
        true
    }

    open spec fn congruent(&self, other: &Self) -> bool {
        true
    }

    proof fn lemma_inv(&self) {
    }

    proof fn lemma_congruent_refl(&self) {
    }

    proof fn lemma_congruent_sides(&self, other: &Self) {
    }

    proof fn lemma_congruent_trans(&self, b: &Self, c: &Self) {
    }
}

impl Polyhedral for SimpleCoin {
    fn sides() -> usize {
        2
    }
}

impl Step for SimpleCoin {
    /// Turns the coin over.
    fn next(&self) -> Self {
        match self.value {
            CoinFacing::Heads => SimpleCoin { value: CoinFacing::Tails },
            CoinFacing::Tails => SimpleCoin { value: CoinFacing::Heads },
        }
    }

    /// Turns the coin over; on a two-sided cycle, stepping backward shows
    /// the same side as stepping forward.
    fn back(&self) -> Self {
        match self.value {
            CoinFacing::Heads => SimpleCoin { value: CoinFacing::Tails },
            CoinFacing::Tails => SimpleCoin { value: CoinFacing::Heads },
        }
    }
}

impl StepMut for SimpleCoin {
    /// Turns the coin over in place.
    fn next_mut(&mut self) {
        let turned = self.next();
        self.value = turned.value;
    }

    /// Turns the coin over in place; on a two-sided cycle, stepping
    /// backward shows the same side as stepping forward.
    fn back_mut(&mut self) {
        let turned = self.back();
        self.value = turned.value;
    }
}

impl Rotate for SimpleCoin {

}

impl RotateMut for SimpleCoin {

}

} // verus!

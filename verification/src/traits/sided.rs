//! The capability that underlies every multi-sided value.

use vstd::prelude::*;

verus! {

/// A value that ranges over a fixed-size cyclic space of sides.
///
/// The spec functions model such a value as a side count together with a
/// zero-based position; every stepping and rotation contract in this crate
/// is stated over that model. `congruent` relates values that range over
/// the same sides (for a die over a slice of labels: the same labels), so
/// that rotating is guaranteed never to exchange one side table for
/// another.
pub trait Sided {
    /// The number of sides of this value's cyclic space.
    spec fn spec_sides(&self) -> nat;

    /// The zero-based index of the side currently faced.
    spec fn spec_position(&self) -> nat;

    /// Well-formedness: the side count is positive and the position is a
    /// valid index.
    spec fn inv(&self) -> bool;

    /// Whether `other` ranges over the same sides as `self`, differing at
    /// most in the side currently faced.
    spec fn congruent(&self, other: &Self) -> bool;

    /// A well-formed value has at least one side and faces one of them.
    proof fn lemma_inv(&self)
        requires
            self.inv(),
        ensures
            0 < self.spec_sides(),
            self.spec_position() < self.spec_sides(),
    ;

    /// Every well-formed value ranges over its own sides.
    proof fn lemma_congruent_refl(&self)
        requires
            self.inv(),
        ensures
            self.congruent(self),
    ;

    /// Values over the same sides have the same side count.
    proof fn lemma_congruent_sides(&self, other: &Self)
        requires
            self.congruent(other),
        ensures
            self.spec_sides() == other.spec_sides(),
    ;

    /// Ranging over the same sides is transitive.
    proof fn lemma_congruent_trans(&self, b: &Self, c: &Self)
        requires
            self.congruent(b),
            b.congruent(c),
        ensures
            self.congruent(c),
    ;
}

} // verus!

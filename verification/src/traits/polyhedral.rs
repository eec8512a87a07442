//! A trait that provides a known number of sides.

use crate::traits::sided::Sided;
use vstd::prelude::*;

verus! {

/// A trait that provides a known number of sides for a multi-sided element.
pub trait Polyhedral: Sided + Sized {
    /// Returns the number of sides present, the side count of every
    /// well-formed value of this type.
    fn sides() -> (n: usize)
        ensures
            forall|v: Self| v.inv() ==> (#[trigger] v.spec_sides()) == n as nat,
    ;
}

} // verus!

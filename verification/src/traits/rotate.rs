//! Traits that step or rotate multi-sided values.

use crate::impls::{
    lemma_rotated_index_compose, lemma_rotated_index_identity, lemma_rotated_index_in_range,
    lemma_step_backward_is_rotate_minus_one, lemma_step_forward_is_rotate_one, rotated_index,
    step_backward_index, step_forward_index,
};
use crate::traits::sided::Sided;
use vstd::prelude::*;

verus! {

/// A trait that creates elements by use of step functions, i.e. seeking
/// forward or backward by one side.
pub trait Step: Sided + Sized {
    /// Steps forward, returning the value rotated by `1`.
    fn next(&self) -> (r: Self)
        requires
            self.inv(),
        ensures
            r.inv(),
            self.congruent(&r),
            r.spec_sides() == self.spec_sides(),
            r.spec_position() == step_forward_index(
                self.spec_sides() as int,
                self.spec_position() as int,
            ),
    ;

    /// Steps backward, returning the value rotated by `-1`.
    fn back(&self) -> (r: Self)
        requires
            self.inv(),
        ensures
            r.inv(),
            self.congruent(&r),
            r.spec_sides() == self.spec_sides(),
            r.spec_position() == step_backward_index(
                self.spec_sides() as int,
                self.spec_position() as int,
            ),
    ;
}

/// A trait that mutates state by use of step functions, i.e. seeking
/// forward or backward by one side.
pub trait StepMut: Sided + Sized {
    /// Steps forward, rotating the value by `1` in place.
    fn next_mut(&mut self)
        requires
            old(self).inv(),
        ensures
            final(self).inv(),
            old(self).congruent(final(self)),
            final(self).spec_sides() == old(self).spec_sides(),
            final(self).spec_position() == step_forward_index(
                old(self).spec_sides() as int,
                old(self).spec_position() as int,
            ),
    ;

    /// Steps backward, rotating the value by `-1` in place.
    fn back_mut(&mut self)
        requires
            old(self).inv(),
        ensures
            final(self).inv(),
            old(self).congruent(final(self)),
            final(self).spec_sides() == old(self).spec_sides(),
            final(self).spec_position() == step_backward_index(
                old(self).spec_sides() as int,
                old(self).spec_position() as int,
            ),
    ;
}

/// A trait that can create rotated (forwards or backwards) elements given a
/// signed amount.
pub trait Rotate: Step + Clone {
    /// Rotates either forwards or backwards, based on the given amount.
    ///
    /// The default implementation is naive: it walks one step at a time
    /// with `next` and `back`, or O(n) where n is the magnitude of
    /// `amount`. Where possible, replace this method with one that seeks
    /// directly through modular arithmetic; the result is the same either
    /// way.
    fn rotate(&self, amount: i8) -> (r: Self)
        requires
            self.inv(),
        ensures
            r.inv(),
            self.congruent(&r),
            r.spec_sides() == self.spec_sides(),
            r.spec_position() == rotated_index(
                self.spec_sides() as int,
                self.spec_position() as int,
                amount as int,
            ),
    {
        let ghost size = self.spec_sides() as int;
        let ghost start = self.spec_position() as int;
        proof {
            self.lemma_inv();
            lemma_rotated_index_identity(size, start);
        }
        let forwards = amount >= 0;
        let mut remaining: usize = if forwards {
            amount as usize
        } else {
            (-(amount as i32)) as usize
        };
        let ghost total = remaining as int;
        // A round trip of one step forward and one step back faces the
        // starting side again, which yields a starting value without
        // relying on `clone`.
        let stepped = self.next();
        let mut current = stepped.back();
        proof {
            lemma_step_forward_is_rotate_one(size, start);
            lemma_rotated_index_in_range(size, start, 1);
            lemma_step_backward_is_rotate_minus_one(size, stepped.spec_position() as int);
            lemma_rotated_index_compose(size, start, 1, -1);
            self.lemma_congruent_trans(&stepped, &current);
        }
        while remaining > 0
            invariant
                self.inv(),
                current.inv(),
                self.congruent(&current),
                size == self.spec_sides() as int,
                start == self.spec_position() as int,
                0 < size,
                0 <= start < size,
                current.spec_sides() == self.spec_sides(),
                remaining <= total,
                forwards ==> total == amount as int,
                !forwards ==> total == -(amount as int),
                forwards ==> current.spec_position() == rotated_index(
                    size,
                    start,
                    total - remaining,
                ),
                !forwards ==> current.spec_position() == rotated_index(
                    size,
                    start,
                    -(total - remaining),
                ),
            decreases remaining,
        {
            let ghost walked = total - remaining;
            let stepped = if forwards {
                current.next()
            } else {
                current.back()
            };
            proof {
                current.lemma_inv();
                if forwards {
                    lemma_step_forward_is_rotate_one(size, current.spec_position() as int);
                    lemma_rotated_index_compose(size, start, walked, 1);
                } else {
                    lemma_step_backward_is_rotate_minus_one(size, current.spec_position() as int);
                    lemma_rotated_index_compose(size, start, -walked, -1);
                }
                self.lemma_congruent_trans(&current, &stepped);
            }
            current = stepped;
            remaining = remaining - 1;
        }
        current
    }
}

/// A trait that can rotate (mutating; forwards or backwards) elements given
/// a signed amount.
pub trait RotateMut: StepMut {
    /// Rotates either forwards or backwards in place, based on the given
    /// amount.
    ///
    /// The default implementation is naive: it walks one step at a time
    /// with `next_mut` and `back_mut`, or O(n) where n is the magnitude of
    /// `amount`. Where possible, replace this method with one that seeks
    /// directly through modular arithmetic; the result is the same either
    /// way.
    fn rotate_mut(&mut self, amount: i8)
        requires
            old(self).inv(),
        ensures
            final(self).inv(),
            old(self).congruent(final(self)),
            final(self).spec_sides() == old(self).spec_sides(),
            final(self).spec_position() == rotated_index(
                old(self).spec_sides() as int,
                old(self).spec_position() as int,
                amount as int,
            ),
    {
        let ghost orig = *self;
        let ghost size = orig.spec_sides() as int;
        let ghost start = orig.spec_position() as int;
        proof {
            orig.lemma_inv();
            orig.lemma_congruent_refl();
            lemma_rotated_index_identity(size, start);
        }
        let forwards = amount >= 0;
        let mut remaining: usize = if forwards {
            amount as usize
        } else {
            (-(amount as i32)) as usize
        };
        let ghost total = remaining as int;
        while remaining > 0
            invariant
                self.inv(),
                orig.congruent(self),
                size == orig.spec_sides() as int,
                start == orig.spec_position() as int,
                0 < size,
                0 <= start < size,
                self.spec_sides() == orig.spec_sides(),
                remaining <= total,
                forwards ==> total == amount as int,
                !forwards ==> total == -(amount as int),
                forwards ==> self.spec_position() == rotated_index(size, start, total - remaining),
                !forwards ==> self.spec_position() == rotated_index(
                    size,
                    start,
                    -(total - remaining),
                ),
            decreases remaining,
        {
            let ghost walked = total - remaining;
            let ghost before = *self;
            if forwards {
                self.next_mut();
            } else {
                self.back_mut();
            }
            proof {
                before.lemma_inv();
                if forwards {
                    lemma_step_forward_is_rotate_one(size, before.spec_position() as int);
                    lemma_rotated_index_compose(size, start, walked, 1);
                } else {
                    lemma_step_backward_is_rotate_minus_one(size, before.spec_position() as int);
                    lemma_rotated_index_compose(size, start, -walked, -1);
                }
                orig.lemma_congruent_trans(&before, self);
            }
            remaining = remaining - 1;
        }
    }
}

} // verus!

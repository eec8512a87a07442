//! The rotation engine: pure index arithmetic on a fixed-size cyclic index
//! space `0..SIZE`, and helpers that rotate through a slice of values.
//!
//! Everything here is O(1) in the rotation amount: amounts are reduced
//! modulo `SIZE` instead of being walked one step at a time.

use vstd::arithmetic::div_mod::{
    lemma_add_mod_noop_right, lemma_mod_add_multiples_vanish, lemma_mod_division_less_than_divisor,
    lemma_mod_self_0, lemma_mod_sub_multiples_vanish, lemma_small_mod, lemma_sub_mod_noop_right,
};
use vstd::prelude::*;

verus! {

/// The index faced after rotating a cycle of `size` sides from `current` by a
/// signed `amount`.
///
/// `%` on `int` is Euclidean, so the result lands in `[0, size)` whenever
/// `size > 0`, for negative amounts as well.
pub open spec fn rotated_index(size: int, current: int, amount: int) -> int {
    (current + amount) % size
}

/// The index faced after one step forward, wrapping from the last side back
/// to the first.
pub open spec fn step_forward_index(size: int, current: int) -> int {
    if current + 1 == size {
        0
    } else {
        current + 1
    }
}

/// The index faced after one step backward, wrapping from the first side to
/// the last.
pub open spec fn step_backward_index(size: int, current: int) -> int {
    if current == 0 {
        size - 1
    } else {
        current - 1
    }
}

/// Closure: a rotation never leaves the index space `[0, size)`.
pub proof fn lemma_rotated_index_in_range(size: int, current: int, amount: int)
    requires
        0 < size,
    ensures
        0 <= rotated_index(size, current, amount) < size,
{
    lemma_mod_division_less_than_divisor(current + amount, size);
}

/// Identity: rotating by zero faces the same index.
pub proof fn lemma_rotated_index_identity(size: int, current: int)
    requires
        0 <= current < size,
    ensures
        rotated_index(size, current, 0) == current,
{
    lemma_small_mod(current as nat, size as nat);
}

/// Rotations compose by adding their amounts.
pub proof fn lemma_rotated_index_compose(size: int, current: int, a: int, b: int)
    requires
        0 < size,
    ensures
        rotated_index(size, rotated_index(size, current, a), b) == rotated_index(
            size,
            current,
            a + b,
        ),
{
    lemma_add_mod_noop_right(b, current + a, size);
}

/// Inverse: rotating by `amount` and then by `-amount` returns to the
/// starting index.
pub proof fn lemma_rotated_index_inverse(size: int, current: int, amount: int)
    requires
        0 <= current < size,
    ensures
        rotated_index(size, rotated_index(size, current, amount), -amount) == current,
{
    lemma_rotated_index_compose(size, current, amount, -amount);
    lemma_rotated_index_identity(size, current);
}

/// Periodicity: rotating by a whole turn, in either direction, faces the
/// same index.
pub proof fn lemma_rotated_index_period(size: int, current: int)
    requires
        0 <= current < size,
    ensures
        rotated_index(size, current, size) == current,
        rotated_index(size, current, -size) == current,
{
    lemma_mod_add_multiples_vanish(current, size);
    lemma_mod_sub_multiples_vanish(current, size);
    lemma_small_mod(current as nat, size as nat);
}

/// Large magnitudes reduce: rotating by `amount` is rotating by
/// `amount % size`.
pub proof fn lemma_rotated_index_reduce(size: int, current: int, amount: int)
    requires
        0 < size,
    ensures
        rotated_index(size, current, amount) == rotated_index(size, current, amount % size),
{
    lemma_add_mod_noop_right(current, amount, size);
}

/// Single-step equivalence: one step forward is a rotation by `1`.
pub proof fn lemma_step_forward_is_rotate_one(size: int, current: int)
    requires
        0 <= current < size,
    ensures
        step_forward_index(size, current) == rotated_index(size, current, 1),
{
    if current + 1 == size {
        lemma_mod_self_0(size);
    } else {
        lemma_small_mod((current + 1) as nat, size as nat);
    }
}

/// Single-step equivalence: one step backward is a rotation by `-1`.
pub proof fn lemma_step_backward_is_rotate_minus_one(size: int, current: int)
    requires
        0 <= current < size,
    ensures
        step_backward_index(size, current) == rotated_index(size, current, -1),
{
    if current == 0 {
        lemma_mod_add_multiples_vanish(-1, size);
        lemma_small_mod((size - 1) as nat, size as nat);
    } else {
        lemma_small_mod((current - 1) as nat, size as nat);
    }
}

/// Rotates `current` forward by `amount` sides within `0..SIZE`, in O(1).
pub fn rotate_forward_usize<const SIZE: usize>(current: usize, amount: usize) -> (next: usize)
    requires
        current < SIZE,
    ensures
        next == rotated_index(SIZE as int, current as int, amount as int),
{
    let a: usize = amount % SIZE;
    proof {
        lemma_mod_division_less_than_divisor(amount as int, SIZE as int);
        lemma_rotated_index_reduce(SIZE as int, current as int, amount as int);
        if current + a < SIZE {
            lemma_small_mod((current + a) as nat, SIZE as nat);
        } else {
            lemma_mod_add_multiples_vanish(current + a - SIZE, SIZE as int);
            lemma_small_mod((current + a - SIZE) as nat, SIZE as nat);
        }
    }
    if a < SIZE - current {
        current + a
    } else {
        current - (SIZE - a)
    }
}

/// Rotates `current` backward by `amount` sides within `0..SIZE`, in O(1).
pub fn rotate_backward_usize<const SIZE: usize>(current: usize, amount: usize) -> (next: usize)
    requires
        current < SIZE,
    ensures
        next == rotated_index(SIZE as int, current as int, -(amount as int)),
{
    let a: usize = amount % SIZE;
    proof {
        lemma_mod_division_less_than_divisor(amount as int, SIZE as int);
        lemma_sub_mod_noop_right(current as int, amount as int, SIZE as int);
        if a <= current {
            lemma_small_mod((current - a) as nat, SIZE as nat);
        } else {
            lemma_mod_add_multiples_vanish(current - a, SIZE as int);
            lemma_small_mod((current + SIZE - a) as nat, SIZE as nat);
        }
    }
    if a <= current {
        current - a
    } else {
        current + (SIZE - a)
    }
}

/// Steps forward by one within a slice of values, returning a clone of the
/// value one past `current`, wrapping at the end of the slice.
pub fn next_slice<T: Clone, const SIZE: usize>(current: usize, all: &[T; SIZE]) -> (r: T)
    requires
        current < SIZE,
    ensures
        cloned(all@[step_forward_index(SIZE as int, current as int)], r),
{
    let next: usize = if current + 1 == SIZE {
        0
    } else {
        current + 1
    };
    all[next].clone()
}

/// Rotates within a slice of values by a signed `amount`, returning a clone
/// of the value faced afterwards.
pub fn rotate_slice<T: Clone, const SIZE: usize>(current: usize, all: &[T; SIZE], amount: i8) -> (r:
    T)
    requires
        current < SIZE,
    ensures
        cloned(all@[rotated_index(SIZE as int, current as int, amount as int)], r),
{
    if amount >= 0 {
        rotate_forward(current, all, amount as usize)
    } else {
        let magnitude: usize = (-(amount as i32)) as usize;
        rotate_backward(current, all, magnitude)
    }
}

/// Rotates forward within a slice of values by an unsigned `amount`.
fn rotate_forward<T: Clone, const SIZE: usize>(current: usize, all: &[T; SIZE], amount: usize) -> (r:
    T)
    requires
        current < SIZE,
    ensures
        cloned(all@[rotated_index(SIZE as int, current as int, amount as int)], r),
{
    let next = rotate_forward_usize::<SIZE>(current, amount);
    all[next].clone()
}

/// Rotates backward within a slice of values by an unsigned `amount`.
fn rotate_backward<T: Clone, const SIZE: usize>(current: usize, all: &[T; SIZE], amount: usize) -> (
    r: T)
    requires
        current < SIZE,
    ensures
        cloned(all@[rotated_index(SIZE as int, current as int, -(amount as int))], r),
{
    let next = rotate_backward_usize::<SIZE>(current, amount);
    all[next].clone()
}

} // verus!

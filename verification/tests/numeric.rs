use tomb::items::D4;
use tomb::traits::{Rotate, RotateMut, Step, StepMut};

#[test]
fn numeric_die_is_clone() {
    let d4_2 = D4::from(2).clone();
    assert_eq!(d4_2.value(), 2);
}

#[test]
fn numeric_die_is_debug() {
    let d4_2 = D4::from(2);
    assert_eq!(d4_2.describe(), "D4:2");
}

#[test]
fn numeric_die_is_default() {
    let d4_1: D4 = Default::default();
    assert_eq!(d4_1.value(), 1);
}

#[test]
fn numeric_die_is_eq() {
    let a = D4::from(2);
    let b = D4::from(2);
    assert_eq!(a, b);
}

#[test]
fn numeric_die_step_next() {
    let d4_2 = D4::from(2);
    let d4_3 = d4_2.next();

    assert_eq!(d4_3.value(), 3);
}

#[test]
fn numeric_die_step_next_wrap() {
    let d4_4 = D4::from(4);
    let d4_1 = d4_4.next();

    assert_eq!(d4_1.value(), 1);
}

#[test]
fn numeric_die_step_back() {
    let d4_2 = D4::from(2);
    let d4_3 = d4_2.back();

    assert_eq!(d4_3.value(), 1);
}

#[test]
fn numeric_die_step_back_wrap() {
    let d4_1 = D4::from(1);
    let d4_4 = d4_1.back();

    assert_eq!(d4_4.value(), 4);
}

#[test]
fn numeric_die_step_next_mut() {
    let mut d4 = D4::from(2);
    d4.next_mut();

    assert_eq!(d4.value(), 3);
}

#[test]
fn numeric_die_step_next_mut_wrap() {
    let mut d4 = D4::from(4);
    d4.next_mut();

    assert_eq!(d4.value(), 1);
}

#[test]
fn numeric_die_step_back_mut() {
    let mut d4 = D4::from(2);
    d4.back_mut();

    assert_eq!(d4.value(), 1);
}

#[test]
fn numeric_die_step_back_mut_wrap() {
    let mut d4 = D4::from(1);
    d4.back_mut();

    assert_eq!(d4.value(), 4);
}

#[test]
fn numeric_die_rotate_none() {
    let d4_2 = D4::from(2);
    let d4_2 = d4_2.rotate(0);

    assert_eq!(d4_2.value(), 2);
}

#[test]
fn numeric_die_rotate_mut_none() {
    let mut d4_2 = D4::from(2);
    d4_2.rotate_mut(0);

    assert_eq!(d4_2.value(), 2);
}

#[test]
fn numeric_die_rotate_next() {
    let d4_2 = D4::from(2);
    let d4_3 = d4_2.rotate(1);

    assert_eq!(d4_3.value(), 3);
}

#[test]
fn numeric_die_rotate_next_wrap() {
    let d4_2 = D4::from(2);
    let d4_1 = d4_2.rotate(3);

    assert_eq!(d4_1.value(), 1);
}

#[test]
fn numeric_die_rotate_back() {
    let d4_2 = D4::from(2);
    let d4_1 = d4_2.rotate(-1);

    assert_eq!(d4_1.value(), 1);
}

#[test]
fn numeric_die_rotate_back_wrap() {
    let d4_2 = D4::from(2);
    let d4_3 = d4_2.rotate(-3);

    assert_eq!(d4_3.value(), 3);
}

#[test]
fn numeric_die_rotate_next_mut() {
    let mut d4 = D4::from(2);
    d4.rotate_mut(3);

    assert_eq!(d4.value(), 1);
}

#[test]
fn numeric_die_rotate_next_mut_wrap() {
    let mut d4 = D4::from(2);
    d4.rotate_mut(-1);

    assert_eq!(d4.value(), 1);
}

#[test]
fn numeric_die_rotate_back_mut() {
    let mut d4 = D4::from(2);
    d4.rotate_mut(-1);

    assert_eq!(d4.value(), 1);
}

#[test]
fn numeric_die_rotate_back_mut_wrap() {
    let mut d4 = D4::from(2);
    d4.rotate_mut(-3);

    assert_eq!(d4.value(), 3);
}

use tomb::items::SliceDie;
use tomb::traits::{Step, StepMut};

type GradeDie<'a> = SliceDie<'a, char, 5>;
const GRADES: [char; 5] = ['A', 'B', 'C', 'D', 'F'];

#[test]
fn slice_new_ok() {
    let die = GradeDie::new(&GRADES);

    assert_eq!(die.sides(), &GRADES);
    assert_eq!(die.position(), 0);
    assert_eq!(die.value(), &'A');
}

#[test]
fn slice_from() {
    let a = GradeDie::new(&GRADES);
    let b = GradeDie::new(&GRADES);

    assert_eq!(a, b);
}

#[test]
fn slice_next() {
    let d = GradeDie::new(&GRADES).next();

    assert_eq!(d.position(), 1);
    assert_eq!(d.value(), &'B');
}

#[test]
fn slice_next_wrap() {
    let d = GradeDie::with_position(4, &GRADES).next();

    assert_eq!(d.position(), 0);
    assert_eq!(d.value(), &'A');
}

#[test]
fn slice_next_mut() {
    let mut d = GradeDie::new(&GRADES);
    d.next_mut();

    assert_eq!(d.position(), 1);
    assert_eq!(d.value(), &'B');
}

#[test]
fn slice_next_mut_wrap() {
    let mut d = GradeDie::with_position(4, &GRADES);
    d.next_mut();

    assert_eq!(d.position(), 0);
    assert_eq!(d.value(), &'A');
}

#[test]
fn slice_back() {
    let d = GradeDie::with_position(4, &GRADES).back();

    assert_eq!(d.position(), 3);
    assert_eq!(d.value(), &'D');
}

#[test]
fn slice_back_wrap() {
    let d = GradeDie::new(&GRADES).back();

    assert_eq!(d.position(), 4);
    assert_eq!(d.value(), &'F');
}

#[test]
fn slice_back_mut() {
    let mut d = GradeDie::with_position(4, &GRADES);
    d.back_mut();

    assert_eq!(d.position(), 3);
    assert_eq!(d.value(), &'D');
}

#[test]
fn slice_back_mut_wrap() {
    let mut d = GradeDie::new(&GRADES);
    d.back_mut();

    assert_eq!(d.position(), 4);
    assert_eq!(d.value(), &'F');
}

use fastrand::Rng;
use tomb::items::{NopRoller, RngRoller, D20, D6};
use tomb::simple::SimpleCounter;
use tomb::traits::{Roll, RollMut};

#[test]
fn nop_roller_new_and_clone() {
    let _ = NopRoller::new().clone();
}

#[test]
fn nop_roller_default() {
    let _: NopRoller = Default::default();
}

#[test]
fn nop_roller_no_changes() {
    let counter = SimpleCounter::new(42);
    let roller = NopRoller::new();
    for _ in 0..10 {
        let rolled = roller.roll(&counter);
        assert_eq!(rolled.value(), 42);
    }
}

#[test]
fn nop_roller_mut_no_changes() {
    let mut counter = SimpleCounter::new(42);
    let roller = NopRoller::new();
    for _ in 0..10 {
        roller.roll_mut(&mut counter);
        assert_eq!(counter.value(), 42);
    }
}

#[test]
fn rng_roller_new_and_clone() {
    let _ = RngRoller::new().clone();
}

#[test]
fn rng_roller_default() {
    let _: RngRoller = Default::default();
}

#[test]
fn roll() {
    let roller = RngRoller::from(Rng::with_seed(7194422452970863838));

    let d6 = D6::new();
    let rd = roller.roll(&d6);
    assert_eq!(rd.value(), 3);
}

#[test]
fn roll_mut() {
    let roller = RngRoller::from(Rng::with_seed(7194422452970863838));

    let mut d20 = D20::new();
    roller.roll_mut(&mut d20);
    assert_eq!(d20.value(), 10);
}

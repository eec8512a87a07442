use tomb::impls::{next_slice, rotate_slice};
use tomb::items::{NumericDie, RangeError, SliceDie, D4, D6};
use tomb::simple::{CoinFacing, SimpleCoin};
use tomb::traits::{Polyhedral, Roll, RollMut, Rotate, RotateMut, Step, StepMut};

const LETTERS: [char; 6] = ['A', 'B', 'C', 'D', 'E', 'F'];

/// A roller that always rotates by a fixed amount: a deterministic stand-in
/// for a random source.
struct FixedRoller(i8);

impl Roll for FixedRoller {
    fn roll<T: Rotate + Polyhedral>(&self, value: &T) -> T {
        value.rotate(self.0)
    }
}

impl RollMut for FixedRoller {
    fn roll_mut<T: RotateMut + Polyhedral>(&self, value: &mut T) {
        value.rotate_mut(self.0);
    }
}

#[test]
fn six_sided_scenarios() {
    let die = SliceDie::with_position(0, &LETTERS).rotate(2);
    assert_eq!(die.position(), 2);
    assert_eq!(die.value(), &'C');

    let die = SliceDie::with_position(2, &LETTERS).rotate(-2);
    assert_eq!(die.position(), 0);
    assert_eq!(die.value(), &'A');

    let die = SliceDie::with_position(2, &LETTERS).rotate(3);
    assert_eq!(die.position(), 5);
    assert_eq!(die.value(), &'F');

    let die = SliceDie::with_position(0, &LETTERS).rotate(-3);
    assert_eq!(die.position(), 3);
    assert_eq!(die.value(), &'D');
}

#[test]
fn four_sided_wraps() {
    assert_eq!(D4::from(4).next().value(), 1);
    assert_eq!(D4::from(1).back().value(), 4);
}

#[test]
fn fixed_roller_reaches_side() {
    let roller = FixedRoller(2);
    let d6 = D6::new();
    assert_eq!(roller.roll(&d6).value(), 3);

    let mut d6 = D6::new();
    roller.roll_mut(&mut d6);
    assert_eq!(d6.value(), 3);
}

#[test]
fn numeric_validation() {
    assert_eq!(D4::try_from(0), Err(RangeError));
    assert_eq!(D4::try_from(5), Err(RangeError));
    assert_eq!(D4::try_from(1).map(|d| d.value()), Ok(1));
    assert_eq!(D4::try_from(4).map(|d| d.value()), Ok(4));
}

#[test]
fn slice_validation() {
    let empty: [char; 0] = [];
    assert!(SliceDie::try_new(&empty).is_err());
    assert!(SliceDie::try_new(&LETTERS).is_ok());
    assert!(SliceDie::try_with_position(6, &LETTERS).is_err());
    let die = SliceDie::try_with_position(5, &LETTERS).unwrap();
    assert_eq!(die.value(), &'F');
}

#[test]
fn one_sided_cycle() {
    let only: [char; 1] = ['Z'];
    let die = SliceDie::new(&only);
    assert_eq!(die.next().position(), 0);
    assert_eq!(die.back().position(), 0);
    assert_eq!(die.rotate(7).position(), 0);
    assert_eq!(die.rotate(-7).position(), 0);
    let single = NumericDie::<u8, 1>::new();
    assert_eq!(single.rotate(100).value(), 1);
}

#[test]
fn large_amounts_reduce() {
    // Rotating a 6-position cycle by 120 (a multiple of 6) changes nothing,
    // and by -121 steps one back.
    let die = SliceDie::with_position(4, &LETTERS);
    assert_eq!(die.rotate(120).position(), 4);
    assert_eq!(die.rotate(-121).position(), 3);
    let d6 = D6::from(5);
    assert_eq!(d6.rotate(120).value(), 5);
    assert_eq!(d6.rotate(127).value(), 6);
    assert_eq!(d6.rotate(-128).value(), 3);
}

#[test]
fn rotation_inverse_round_trip() {
    for start in 0..6usize {
        for amount in -128i16..128i16 {
            let amount = amount as i8;
            let die = SliceDie::with_position(start, &LETTERS);
            let back_again = die.rotate(amount).rotate(if amount == -128 {
                // The exact negation of -128 does not fit in an i8; undo it
                // in two turns.
                64
            } else {
                -amount
            });
            let back_again = if amount == -128 {
                back_again.rotate(64)
            } else {
                back_again
            };
            assert_eq!(back_again.position(), start);
        }
    }
}

#[test]
fn step_equals_rotate_one() {
    for start in 0..6usize {
        let die = SliceDie::with_position(start, &LETTERS);
        assert_eq!(die.next().position(), die.rotate(1).position());
        assert_eq!(die.back().position(), die.rotate(-1).position());
        assert_eq!(next_slice(start, &LETTERS), rotate_slice(start, &LETTERS, 1));
    }
}

#[test]
fn wide_numeric_types() {
    let die = NumericDie::<u32, 10>::from(7);
    assert_eq!(die.rotate(5).value(), 2);
    let die = NumericDie::<u64, 9>::new();
    assert_eq!(die.rotate(-1).value(), 9);
    let mut die = NumericDie::<usize, 3>::from(2);
    die.rotate_mut(4);
    assert_eq!(die.value(), 3);
}

#[test]
fn coin_facings_cycle() {
    let heads = SimpleCoin::new(CoinFacing::Heads);
    assert_eq!(heads.get(), CoinFacing::Heads);
    assert!(heads.rotate(2).is_heads());
    assert!(heads.rotate(3).is_tails());
    let mut coin = heads;
    coin.set(CoinFacing::Tails);
    assert_eq!(coin.swap_mut(), CoinFacing::Heads);
    assert!(coin.is_heads());
}

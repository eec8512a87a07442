use tomb::simple::{CoinFacing, SimpleCoin};
use tomb::traits::{Rotate, RotateMut, Step, StepMut};

#[test]
fn simple_coin_heads() {
    let coin = SimpleCoin::heads();
    assert!(coin.is_heads());
}

#[test]
fn simple_coin_tails() {
    let coin = SimpleCoin::tails();
    assert!(coin.is_tails());
}

#[test]
fn simple_coin_next() {
    let coin = SimpleCoin::heads();
    let tails = coin.next();
    assert!(tails.is_tails());
    let heads = tails.next();
    assert!(heads.is_heads());
}

#[test]
fn simple_coin_swap() {
    let coin = SimpleCoin::heads();
    let tails = coin.swap();
    assert!(tails.is_tails());
    let heads = tails.swap();
    assert!(heads.is_heads());
}

#[test]
fn simple_coin_rotate() {
    let coin = SimpleCoin::heads();

    let tails = coin.rotate(1);
    assert!(tails.is_tails());

    let tails = coin.rotate(-1);
    assert!(tails.is_tails());

    let tails = coin.rotate(-5);
    assert!(tails.is_tails());
}

#[test]
fn simple_coin_set() {
    let mut coin = SimpleCoin::heads();
    coin.set(CoinFacing::Tails);
    assert!(coin.is_tails());
}

#[test]
fn simple_coin_swap_mut() {
    let mut coin = SimpleCoin::heads();
    coin.swap_mut();
    assert!(coin.is_tails());
}

#[test]
fn simple_coin_rotate_mut() {
    let mut coin = SimpleCoin::heads();
    coin.rotate_mut(3);
    assert!(coin.is_tails());
}

#[test]
fn simple_coin_next_mut() {
    let mut coin = SimpleCoin::heads();
    coin.next_mut();
    assert!(coin.is_tails());
}

//! Coins and what they are worth.

use vstd::prelude::*;

verus! {

/// A state that mints quarters of its own.
#[derive(Debug)]
pub enum UsState {
    Alabama,
    Alaska,
}

/// A coin; a quarter carries the state that minted it.
#[derive(Debug)]
pub enum Coin {
    Penny,
    Nickel,
    Dime,
    Quarter(UsState),
}

/// What a coin is worth in cents, whichever state minted it.
pub open spec fn cents(coin: Coin) -> int {
    match coin {
        Coin::Penny => 1,
        Coin::Nickel => 5,
        Coin::Dime => 10,
        Coin::Quarter(_) => 25,
    }
}

/// The value of `coin` in cents.
pub fn value_in_cents(coin: Coin) -> (value: u8)
    ensures
        value == cents(coin),
{
    match coin {
        Coin::Penny => 1,
        Coin::Nickel => 5,
        Coin::Dime => 10,
        Coin::Quarter(_) => 25,
    }
}

} // verus!

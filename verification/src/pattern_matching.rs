//! Plain enumerations and a coin's worth in cents.

use vstd::prelude::*;

verus! {

/// The four compass directions.
pub enum Direction {
    East,
    West,
    North,
    South,
}

/// The state a quarter was minted for.
#[derive(Debug)]
pub enum UsState {
    Alabama,
    Alaska,
}

/// A coin of the United States.
pub enum Coin {
    Penny,
    Nickel,
    Dime,
    Quarter(UsState),
}

impl Coin {
    /// The worth of the coin in cents.
    pub open spec fn cents(self) -> int {
        match self {
            Coin::Penny => 1,
            Coin::Nickel => 5,
            Coin::Dime => 10,
            Coin::Quarter(_) => 25,
        }
    }
}

/// The worth of `coin` in cents; a quarter is worth the same whatever state it shows.
pub fn value_in_cents(coin: Coin) -> (cents: u8)
    ensures
        cents == coin.cents(),
{
    match coin {
        Coin::Penny => 1,
        Coin::Nickel => 5,
        Coin::Dime => 10,
        Coin::Quarter(_) => 25,
    }
}

} // verus!

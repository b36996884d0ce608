//! Coins and what they are worth, and adding one to a number that may be
//! missing.

use vstd::prelude::*;

verus! {

/// A state that has minted a quarter of its own.
pub enum UsState {
    Alabama,
    Alaska,
}

/// A coin. A quarter carries the state that minted it.
pub enum Coin {
    Penny,
    Nickel,
    Dime,
    Quarter(UsState),
}

impl Coin {
    /// What the coin counts for, in cents: 1, 5 and 10 for the small coins;
    /// a quarter counts 20 when it is from Alabama and 25 when it is from
    /// Alaska.
    pub fn value_in_cents(&self) -> (cents: u8)
        ensures
            cents == match *self {
                Coin::Penny => 1u8,
                Coin::Nickel => 5u8,
                Coin::Dime => 10u8,
                Coin::Quarter(UsState::Alabama) => 20u8,
                Coin::Quarter(UsState::Alaska) => 25u8,
            },
    {
        match self {
            Coin::Penny => 1,
            Coin::Nickel => 5,
            Coin::Dime => 10,
            Coin::Quarter(state) => match state {
                UsState::Alabama => 20,
                UsState::Alaska => 25,
            },
        }
    }
}

/// Values a dime and a quarter from Alabama.
pub fn using_value_match() {
    let value_of_dime = Coin::Dime.value_in_cents();
    let value_of_quarter_in_alabama = Coin::Quarter(UsState::Alabama).value_in_cents();
    assert(value_of_dime == 10);
    assert(value_of_quarter_in_alabama == 20);
}

/// One more than `x`, where `x` holds a number; nothing where it holds none.
pub fn plus_one(x: Option<i32>) -> (next: Option<i32>)
    requires
        x != Some(i32::MAX),
    ensures
        next == match x {
            None => None::<i32>,
            Some(i) => Some((i + 1) as i32),
        },
{
    match x {
        None => None,
        Some(i) => Some(i + 1),
    }
}

/// Adds one to five and to nothing.
pub fn use_plus_one() {
    let five = Some(5);
    let six = plus_one(five);
    let none = plus_one(None);
    assert(six == Some(6i32));
    assert(none.is_none());
}

} // verus!

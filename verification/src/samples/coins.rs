//! Coins, and the states that quarters commemorate.

use vstd::prelude::*;

verus! {

/// A state that has a commemorative quarter.
#[derive(Clone, Copy, Debug, PartialEq, Eq, Structural)]
pub enum UsState {
    Alabama,
    Alaska,
    California,
    Texas,
}

impl UsState {
    /// The year the state joined the union.
    pub open spec fn statehood_year(self) -> int {
        match self {
            UsState::Alabama => 1819,
            UsState::Alaska => 1959,
            UsState::California => 1850,
            UsState::Texas => 1845,
        }
    }

    /// Whether the state was already a state in `year`.
    pub fn existed_in(&self, year: u16) -> (existed: bool)
        ensures
            existed == (year >= self.statehood_year()),
    {
        match self {
            UsState::Alabama => year >= 1819,
            UsState::Alaska => year >= 1959,
            UsState::California => year >= 1850,
            UsState::Texas => year >= 1845,
        }
    }
}

/// A coin; a quarter carries the state it commemorates.
#[derive(Clone, Copy, Debug, PartialEq, Eq, Structural)]
pub enum Coin {
    Penny,
    Nickel,
    Dime,
    Quarter(UsState),
}

} // verus!

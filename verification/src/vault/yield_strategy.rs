//! The interface through which a vault could hand its principal to a source
//! of yield, and two placeholders that hand back what they are given.

use vstd::prelude::*;

verus! {

/// A source of yield. What an implementation returns is its own affair: the
/// vault assumes nothing of it and books only the yield that its admin
/// credits.
pub trait YieldStrategy {
    /// Puts `amount` of principal to work; returns the units received for it.
    fn deposit(amount: i128) -> i128;

    /// Takes `amount` back out; returns the principal received.
    fn withdraw(amount: i128) -> i128;

    /// The present value of the position, principal and yield.
    fn get_balance() -> i128;

    /// Realizes the yield earned so far; returns it.
    fn harvest() -> i128;
}

/// A position in a pool of an automated market maker. A placeholder: units
/// are principal, one for one, and there is no yield.
pub struct SoroswapStrategy {
    pub pool_address: u64,
    pub router_address: u64,
}

impl YieldStrategy for SoroswapStrategy {
    fn deposit(amount: i128) -> (units: i128)
        ensures
            units == amount,
    {
        amount
    }

    fn withdraw(amount: i128) -> (principal: i128)
        ensures
            principal == amount,
    {
        amount
    }

    fn get_balance() -> (value: i128)
        ensures
            value == 0,
    {
        0
    }

    fn harvest() -> (realized: i128)
        ensures
            realized == 0,
    {
        0
    }
}

/// A position in a lending pool. A placeholder: units are principal, one
/// for one, and there is no yield.
pub struct LendingStrategy {
    pub lending_pool: u64,
}

impl YieldStrategy for LendingStrategy {
    fn deposit(amount: i128) -> (units: i128)
        ensures
            units == amount,
    {
        amount
    }

    fn withdraw(amount: i128) -> (principal: i128)
        ensures
            principal == amount,
    {
        amount
    }

    fn get_balance() -> (value: i128)
        ensures
            value == 0,
    {
        0
    }

    fn harvest() -> (realized: i128)
        ensures
            realized == 0,
    {
        0
    }
}

} // verus!

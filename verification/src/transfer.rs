//! The arithmetic of a transfer.

use vstd::prelude::*;
use crate::error::Error;

verus! {

/// The balances that a transfer of `amount` leaves in the debited and in the
/// credited account, in that order.
///
/// Nothing is moved unless all of it can be: an amount above `from_balance`
/// is refused, and so is one that would lift `to_balance` out of `u64`.
pub open spec fn transfer_spec(from_balance: u64, to_balance: u64, amount: u64) -> Result<
    (u64, u64),
    Error,
> {
    if from_balance < amount {
        Err(Error::InsufficientFunds)
    } else if to_balance + amount > u64::MAX {
        Err(Error::BalanceOverflow)
    } else {
        Ok(((from_balance - amount) as u64, (to_balance + amount) as u64))
    }
}

/// Computes the two balances after a transfer of `amount`. What one account
/// loses the other gains: the sum of the two balances stays what it was.
pub fn transfer(from_balance: u64, to_balance: u64, amount: u64) -> (balances: Result<
    (u64, u64),
    Error,
>)
    ensures
        balances == transfer_spec(from_balance, to_balance, amount),
        balances matches Ok((debited, credited)) ==> debited + credited == from_balance
            + to_balance,
{
    if from_balance < amount {
        return Err(Error::InsufficientFunds);
    }
    match to_balance.checked_add(amount) {
        Some(credited) => Ok((from_balance - amount, credited)),
        None => Err(Error::BalanceOverflow),
    }
}

} // verus!

//! Entry points, the ways a call can fail, and the fixed text of each failure.

use vstd::prelude::*;
use vstd::string::StringSliceAdditionalSpecFns;
use vstd::string::StrSliceExecFns;

verus! {

/// The four procedures that the host may call.
#[derive(Clone, Copy, Debug, PartialEq, Eq, Structural)]
pub enum EntryPoint {
    /// Creates two accounts with the balances given.
    Init,
    /// Moves an amount from one account to another.
    Invoke,
    /// Reports the balance of one account.
    Query,
    /// Removes one account.
    Delete,
}

/// The account that a read of the ledger was for.
#[derive(Clone, Copy, Debug, PartialEq, Eq, Structural)]
pub enum Lookup {
    /// The account that a transfer debits.
    From,
    /// The account that a transfer credits.
    To,
    /// The account whose balance was asked for.
    Queried,
}

/// The account that a write to the ledger was for.
#[derive(Clone, Copy, Debug, PartialEq, Eq, Structural)]
pub enum Write {
    /// The first account that `init` creates.
    First,
    /// The second account that `init` creates.
    Second,
    /// The account that a transfer debits.
    From,
    /// The account that a transfer credits.
    To,
}

/// Why a call failed.
#[derive(Clone, Copy, Debug, PartialEq, Eq, Structural)]
pub enum Error {
    /// The host called the entry point with the wrong number of arguments.
    ArityMismatch(EntryPoint),
    /// The host could not supply a parameter.
    ParameterFetchError,
    /// A parameter is not valid UTF-8.
    DecodeError,
    /// A balance or an amount is not an unsigned decimal number within `u64`.
    ParseError,
    /// The ledger holds no such account.
    AccountNotFound(Lookup),
    /// The ledger holds something other than a balance under an account.
    CorruptState,
    /// The debited account holds less than the amount.
    InsufficientFunds,
    /// The credited account would hold more than `u64` can.
    BalanceOverflow,
    /// The host refused to store a balance.
    StateWriteError(Write),
    /// The host refused to remove an account.
    StateDeleteError,
}

impl EntryPoint {
    /// The number of arguments that the entry point takes.
    pub open spec fn spec_arity(self) -> i64 {
        match self {
            EntryPoint::Init => 4,
            EntryPoint::Invoke => 3,
            EntryPoint::Query => 1,
            EntryPoint::Delete => 1,
        }
    }

    /// The number of arguments that the entry point takes.
    #[verifier::when_used_as_spec(spec_arity)]
    pub fn arity(self) -> (count: i64)
        ensures
            count == self.spec_arity(),
    {
        match self {
            EntryPoint::Init => 4,
            EntryPoint::Invoke => 3,
            EntryPoint::Query => 1,
            EntryPoint::Delete => 1,
        }
    }
}

impl Error {
    /// The diagnostic text of the failure, as bytes.
    pub open spec fn spec_message(self) -> Seq<u8> {
        match self {
            Error::ArityMismatch(EntryPoint::Init) =>
                "ERROR! Incorrect number of arguments. Expecting 4".spec_bytes(),
            Error::ArityMismatch(EntryPoint::Invoke) =>
                "ERROR! Incorrect number of arguments. Expecting 3".spec_bytes(),
            Error::ArityMismatch(EntryPoint::Query) =>
                "ERROR! Incorrect number of arguments. Expecting name of the person to query".spec_bytes(),
            Error::ArityMismatch(EntryPoint::Delete) =>
                "ERROR! Incorrect number of arguments. Expecting 1".spec_bytes(),
            Error::ParameterFetchError => "Unable to retrieve transaction parameter".spec_bytes(),
            Error::DecodeError => "not UTF-8".spec_bytes(),
            Error::ParseError => "not a number".spec_bytes(),
            Error::AccountNotFound(Lookup::From) => "ERROR! from account not found".spec_bytes(),
            Error::AccountNotFound(Lookup::To) => "ERROR! to account not found".spec_bytes(),
            Error::AccountNotFound(Lookup::Queried) => "ERROR! account not found".spec_bytes(),
            Error::CorruptState => "ERROR! account balance is not a number".spec_bytes(),
            Error::InsufficientFunds => "ERROR! insufficient units in from account".spec_bytes(),
            Error::BalanceOverflow => "ERROR! too many units in to account".spec_bytes(),
            Error::StateWriteError(Write::First) =>
                "ERROR! Unable to insert first account to state".spec_bytes(),
            Error::StateWriteError(Write::Second) =>
                "ERROR! Unable to insert second account to state".spec_bytes(),
            Error::StateWriteError(Write::From) =>
                "Unable to update from account balance".spec_bytes(),
            Error::StateWriteError(Write::To) => "Unable to update to account balance".spec_bytes(),
            Error::StateDeleteError => "Failed to delete state".spec_bytes(),
        }
    }

    /// The diagnostic text of the failure, as bytes.
    pub fn message(self) -> (text: Vec<u8>)
        ensures
            text@ == self.spec_message(),
    {
        match self {
            Error::ArityMismatch(EntryPoint::Init) =>
                "ERROR! Incorrect number of arguments. Expecting 4".as_bytes_vec(),
            Error::ArityMismatch(EntryPoint::Invoke) =>
                "ERROR! Incorrect number of arguments. Expecting 3".as_bytes_vec(),
            Error::ArityMismatch(EntryPoint::Query) =>
                "ERROR! Incorrect number of arguments. Expecting name of the person to query".as_bytes_vec(),
            Error::ArityMismatch(EntryPoint::Delete) =>
                "ERROR! Incorrect number of arguments. Expecting 1".as_bytes_vec(),
            Error::ParameterFetchError => "Unable to retrieve transaction parameter".as_bytes_vec(),
            Error::DecodeError => "not UTF-8".as_bytes_vec(),
            Error::ParseError => "not a number".as_bytes_vec(),
            Error::AccountNotFound(Lookup::From) => "ERROR! from account not found".as_bytes_vec(),
            Error::AccountNotFound(Lookup::To) => "ERROR! to account not found".as_bytes_vec(),
            Error::AccountNotFound(Lookup::Queried) => "ERROR! account not found".as_bytes_vec(),
            Error::CorruptState => "ERROR! account balance is not a number".as_bytes_vec(),
            Error::InsufficientFunds => "ERROR! insufficient units in from account".as_bytes_vec(),
            Error::BalanceOverflow => "ERROR! too many units in to account".as_bytes_vec(),
            Error::StateWriteError(Write::First) =>
                "ERROR! Unable to insert first account to state".as_bytes_vec(),
            Error::StateWriteError(Write::Second) =>
                "ERROR! Unable to insert second account to state".as_bytes_vec(),
            Error::StateWriteError(Write::From) =>
                "Unable to update from account balance".as_bytes_vec(),
            Error::StateWriteError(Write::To) => "Unable to update to account balance".as_bytes_vec(),
            Error::StateDeleteError => "Failed to delete state".as_bytes_vec(),
        }
    }
}

} // verus!

//! The ledger accessor: an account is a name and a balance, and the host
//! stores it as a key and the balance in decimal. Each operation is a
//! request for the host and a reading of the host's reply.

use vstd::prelude::*;
use crate::decimal::decimal_digits;
use crate::decimal::decimal_value;
use crate::decimal::encode_decimal;
use crate::decimal::is_decimal;
use crate::decimal::parse_decimal;
use crate::error::Error;
use crate::error::Lookup;
use crate::error::Write;
use crate::protocol::Reply;
use crate::protocol::ReplyView;
use crate::protocol::Request;
use crate::protocol::RequestView;

verus! {

/// The balance that a reply to a read of the ledger carries.
///
/// A reply without bytes means that the account does not exist; it is never
/// taken for a balance of zero. Stored bytes that are not a run of decimal
/// digits within `u64` mean that the ledger is corrupt.
pub open spec fn load_balance_spec(reply: ReplyView, account: Lookup) -> Result<u64, Error> {
    match reply {
        ReplyView::Bytes(bytes) => if is_decimal(bytes) && decimal_value(bytes) <= u64::MAX {
            Ok(decimal_value(bytes) as u64)
        } else {
            Err(Error::CorruptState)
        },
        _ => Err(Error::AccountNotFound(account)),
    }
}

/// Whether the host confirmed a write for `account`.
pub open spec fn confirm_store_spec(reply: ReplyView, account: Write) -> Result<(), Error> {
    match reply {
        ReplyView::Done => Ok(()),
        _ => Err(Error::StateWriteError(account)),
    }
}

/// Whether the host confirmed a removal.
pub open spec fn confirm_remove_spec(reply: ReplyView) -> Result<(), Error> {
    match reply {
        ReplyView::Done => Ok(()),
        _ => Err(Error::StateDeleteError),
    }
}

/// The request that reads the balance of the account `name`.
pub fn load(name: String) -> (request: Request)
    ensures
        request@ == (RequestView::GetState { key: name@ }),
{
    Request::GetState { key: name }
}

/// Reads a balance from the reply to `load`.
pub fn load_balance(reply: Reply, account: Lookup) -> (balance: Result<u64, Error>)
    ensures
        balance == load_balance_spec(reply@, account),
{
    match reply {
        Reply::Bytes(bytes) => match parse_decimal(bytes.as_slice()) {
            Some(balance) => Ok(balance),
            None => Err(Error::CorruptState),
        },
        _ => Err(Error::AccountNotFound(account)),
    }
}

/// The request that stores `balance`, in decimal, as the balance of the
/// account `name`.
pub fn store_balance(name: String, balance: u64) -> (request: Request)
    ensures
        request@ == (RequestView::PutState {
            key: name@,
            value: decimal_digits(balance as nat),
        }),
{
    Request::PutState { key: name, value: encode_decimal(balance) }
}

/// Reads the reply to `store_balance`.
pub fn confirm_store(reply: Reply, account: Write) -> (stored: Result<(), Error>)
    ensures
        stored == confirm_store_spec(reply@, account),
{
    match reply {
        Reply::Done => Ok(()),
        _ => Err(Error::StateWriteError(account)),
    }
}

/// The request that removes the account `name`, whether it exists or not.
pub fn remove_account(name: String) -> (request: Request)
    ensures
        request@ == (RequestView::DeleteState { key: name@ }),
{
    Request::DeleteState { key: name }
}

/// Reads the reply to `remove_account`.
pub fn confirm_remove(reply: Reply) -> (removed: Result<(), Error>)
    ensures
        removed == confirm_remove_spec(reply@),
{
    match reply {
        Reply::Done => Ok(()),
        _ => Err(Error::StateDeleteError),
    }
}

} // verus!

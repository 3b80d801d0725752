//! What passes between a handler and the host: the calls a handler asks for,
//! the host's replies, and the outcome that ends a call.

use vstd::prelude::*;
use vstd::string::StringSliceAdditionalSpecFns;
use vstd::string::StrSliceExecFns;
use crate::decimal::decimal_digits;
use crate::decimal::encode_decimal;
use crate::error::Error;
use crate::error::EntryPoint;

verus! {

/// A call that a handler asks the host to make.
#[derive(Debug, PartialEq, Eq)]
pub enum Request {
    /// Fetch the call argument at `index`.
    GetParameter { index: usize },
    /// Read the value stored under `key`.
    GetState { key: String },
    /// Store `value` under `key`, replacing what was there.
    PutState { key: String, value: Vec<u8> },
    /// Remove `key` and its value.
    DeleteState { key: String },
}

/// The host's answer to a request.
#[derive(Debug, PartialEq, Eq)]
pub enum Reply {
    /// The bytes of a parameter or of a stored value.
    Bytes(Vec<u8>),
    /// A write or a removal went through.
    Done,
    /// The host signalled failure; for a read, that nothing is stored.
    Failed,
}

/// How a call ended: what to log, what to hand back, and whether it failed.
#[derive(Debug, PartialEq, Eq)]
pub struct Outcome {
    /// `None` when the call succeeded.
    pub error: Option<Error>,
    /// The diagnostic line to write, if any.
    pub log: Option<Vec<u8>>,
    /// The response payload to set, if any.
    pub result: Option<Vec<u8>>,
}

/// `Request` as a mathematical value.
pub enum RequestView {
    GetParameter { index: usize },
    GetState { key: Seq<char> },
    PutState { key: Seq<char>, value: Seq<u8> },
    DeleteState { key: Seq<char> },
}

/// `Reply` as a mathematical value.
pub enum ReplyView {
    Bytes(Seq<u8>),
    Done,
    Failed,
}

/// `Outcome` as a mathematical value.
pub struct OutcomeView {
    pub error: Option<Error>,
    pub log: Option<Seq<u8>>,
    pub result: Option<Seq<u8>>,
}

/// An optional byte string as a mathematical value.
pub open spec fn view_bytes(bytes: Option<Vec<u8>>) -> Option<Seq<u8>> {
    match bytes {
        Some(b) => Some(b@),
        None => None,
    }
}

impl View for Request {
    type V = RequestView;

    open spec fn view(&self) -> RequestView {
        match *self {
            Request::GetParameter { index } => RequestView::GetParameter { index },
            Request::GetState { key } => RequestView::GetState { key: key@ },
            Request::PutState { key, value } => RequestView::PutState { key: key@, value: value@ },
            Request::DeleteState { key } => RequestView::DeleteState { key: key@ },
        }
    }
}

impl View for Reply {
    type V = ReplyView;

    open spec fn view(&self) -> ReplyView {
        match *self {
            Reply::Bytes(bytes) => ReplyView::Bytes(bytes@),
            Reply::Done => ReplyView::Done,
            Reply::Failed => ReplyView::Failed,
        }
    }
}

impl View for Outcome {
    type V = OutcomeView;

    open spec fn view(&self) -> OutcomeView {
        OutcomeView {
            error: self.error,
            log: view_bytes(self.log),
            result: view_bytes(self.result),
        }
    }
}

/// The outcome of a call that failed with `error`: the error's text goes to
/// the log and is also the response, except where `init` or `invoke` is
/// called with the wrong number of arguments, which is only logged.
pub open spec fn failure(error: Error) -> OutcomeView {
    OutcomeView {
        error: Some(error),
        log: Some(error.spec_message()),
        result: match error {
            Error::ArityMismatch(EntryPoint::Init) => None,
            Error::ArityMismatch(EntryPoint::Invoke) => None,
            _ => Some(error.spec_message()),
        },
    }
}

/// The outcome of an `init` that stored both accounts: nothing to log,
/// nothing to hand back.
pub open spec fn initialised() -> OutcomeView {
    OutcomeView { error: None, log: None, result: None }
}

/// The outcome of a transfer that left `from_balance` and `to_balance` in
/// the two accounts: the log names both, the response is a fixed text.
pub open spec fn transferred(from_balance: u64, to_balance: u64) -> OutcomeView {
    OutcomeView {
        error: None,
        log: Some(
            "Aval = ".spec_bytes() + decimal_digits(from_balance as nat) + " Bval = ".spec_bytes()
                + decimal_digits(to_balance as nat),
        ),
        result: Some("Successfully transferred account balance".spec_bytes()),
    }
}

/// The outcome of a query that found `balance`: the response is the balance
/// in decimal and nothing else.
pub open spec fn reported(balance: u64) -> OutcomeView {
    OutcomeView { error: None, log: None, result: Some(decimal_digits(balance as nat)) }
}

/// The outcome of a removal that went through.
pub open spec fn removed() -> OutcomeView {
    OutcomeView { error: None, log: None, result: Some("Success! Account deleted".spec_bytes()) }
}

impl Outcome {
    /// The status code for the host: 0 for success, -1 for failure.
    pub open spec fn spec_status(&self) -> i64 {
        if self.error is None {
            0i64
        } else {
            -1i64
        }
    }

    /// The status code for the host: 0 for success, -1 for failure.
    #[verifier::when_used_as_spec(spec_status)]
    pub fn status(&self) -> (code: i64)
        ensures
            code == self.spec_status(),
    {
        match self.error {
            None => 0,
            Some(_) => -1,
        }
    }

    /// Ends a call that failed with `error`.
    pub fn failure(error: Error) -> (outcome: Outcome)
        ensures
            outcome@ == failure(error),
    {
        let result: Option<Vec<u8>> = match error {
            Error::ArityMismatch(EntryPoint::Init) => None,
            Error::ArityMismatch(EntryPoint::Invoke) => None,
            _ => Some(error.message()),
        };
        Outcome { error: Some(error), log: Some(error.message()), result }
    }

    /// Ends an `init` that stored both accounts.
    pub fn initialised() -> (outcome: Outcome)
        ensures
            outcome@ == initialised(),
    {
        Outcome { error: None, log: None, result: None }
    }

    /// Ends a transfer that left the two balances given.
    pub fn transferred(from_balance: u64, to_balance: u64) -> (outcome: Outcome)
        ensures
            outcome@ == transferred(from_balance, to_balance),
    {
        let mut line: Vec<u8> = "Aval = ".as_bytes_vec();
        let mut from_digits: Vec<u8> = encode_decimal(from_balance);
        let mut middle: Vec<u8> = " Bval = ".as_bytes_vec();
        let mut to_digits: Vec<u8> = encode_decimal(to_balance);
        line.append(&mut from_digits);
        line.append(&mut middle);
        line.append(&mut to_digits);
        Outcome {
            error: None,
            log: Some(line),
            result: Some("Successfully transferred account balance".as_bytes_vec()),
        }
    }

    /// Ends a query that found `balance`.
    pub fn reported(balance: u64) -> (outcome: Outcome)
        ensures
            outcome@ == reported(balance),
    {
        Outcome { error: None, log: None, result: Some(encode_decimal(balance)) }
    }

    /// Ends a removal that went through.
    pub fn removed() -> (outcome: Outcome)
        ensures
            outcome@ == removed(),
    {
        Outcome { error: None, log: None, result: Some("Success! Account deleted".as_bytes_vec()) }
    }
}

} // verus!

//! The four entry points as state machines.
//!
//! An entry point checks the argument count and, if it is right, asks for the
//! first parameter. From then on the handler is resumed with each reply and
//! either asks for the next host call or ends the call with an outcome. A
//! handler stops at the first thing that goes wrong.

use vstd::prelude::*;
use crate::accessor::confirm_remove;
use crate::accessor::confirm_remove_spec;
use crate::accessor::confirm_store;
use crate::accessor::confirm_store_spec;
use crate::accessor::load;
use crate::accessor::load_balance;
use crate::accessor::load_balance_spec;
use crate::accessor::remove_account;
use crate::accessor::store_balance;
use crate::decimal::decimal_digits;
use crate::error::EntryPoint;
use crate::error::Error;
use crate::error::Lookup;
use crate::error::Write;
use crate::marshal::parameter;
use crate::marshal::read_balance;
use crate::marshal::read_balance_spec;
use crate::marshal::read_string;
use crate::marshal::read_string_spec;
use crate::protocol::failure;
use crate::protocol::initialised;
use crate::protocol::removed;
use crate::protocol::reported;
use crate::protocol::transferred;
use crate::protocol::Outcome;
use crate::protocol::OutcomeView;
use crate::protocol::Reply;
use crate::protocol::ReplyView;
use crate::protocol::Request;
use crate::protocol::RequestView;
use crate::transfer::transfer;
use crate::transfer::transfer_spec;

verus! {

/// A call in progress: the reply it waits for and what it has gathered.
#[derive(Debug, PartialEq, Eq)]
pub enum Handler {
    /// `init` waits for the first account's name.
    InitFirstName,
    /// `init` waits for the first account's balance.
    InitFirstBalance { first: String },
    /// `init` waits for the second account's name.
    InitSecondName { first: String, first_balance: u64 },
    /// `init` waits for the second account's balance.
    InitSecondBalance { first: String, first_balance: u64, second: String },
    /// `init` waits for the first account to be stored.
    InitFirstWrite { second: String, second_balance: u64 },
    /// `init` waits for the second account to be stored.
    InitSecondWrite,
    /// `invoke` waits for the name of the account to debit.
    InvokeFrom,
    /// `invoke` waits for the name of the account to credit.
    InvokeTo { from: String },
    /// `invoke` waits for the amount.
    InvokeAmount { from: String, to: String },
    /// `invoke` waits for the balance of the account to debit.
    InvokeFromBalance { from: String, to: String, amount: u64 },
    /// `invoke` waits for the balance of the account to credit.
    InvokeToBalance { from: String, to: String, amount: u64, from_balance: u64 },
    /// `invoke` waits for the debited balance to be stored; the two fields
    /// are the balances after the transfer.
    InvokeDebit { to: String, from_balance: u64, to_balance: u64 },
    /// `invoke` waits for the credited balance to be stored.
    InvokeCredit { from_balance: u64, to_balance: u64 },
    /// `query` waits for the account's name.
    QueryName,
    /// `query` waits for the account's balance.
    QueryBalance,
    /// `delete` waits for the account's name.
    DeleteName,
    /// `delete` waits for the account to be removed.
    DeleteRemoval,
}

/// What a handler does next.
#[derive(Debug, PartialEq, Eq)]
pub enum Step {
    /// Make this host call and resume the handler with the reply.
    Call(Request, Handler),
    /// The call is over.
    Return(Outcome),
}

/// `Handler` as a mathematical value.
pub enum HandlerView {
    InitFirstName,
    InitFirstBalance { first: Seq<char> },
    InitSecondName { first: Seq<char>, first_balance: u64 },
    InitSecondBalance { first: Seq<char>, first_balance: u64, second: Seq<char> },
    InitFirstWrite { second: Seq<char>, second_balance: u64 },
    InitSecondWrite,
    InvokeFrom,
    InvokeTo { from: Seq<char> },
    InvokeAmount { from: Seq<char>, to: Seq<char> },
    InvokeFromBalance { from: Seq<char>, to: Seq<char>, amount: u64 },
    InvokeToBalance { from: Seq<char>, to: Seq<char>, amount: u64, from_balance: u64 },
    InvokeDebit { to: Seq<char>, from_balance: u64, to_balance: u64 },
    InvokeCredit { from_balance: u64, to_balance: u64 },
    QueryName,
    QueryBalance,
    DeleteName,
    DeleteRemoval,
}

/// `Step` as a mathematical value.
pub enum StepView {
    Call(RequestView, HandlerView),
    Return(OutcomeView),
}

impl View for Handler {
    type V = HandlerView;

    open spec fn view(&self) -> HandlerView {
        match *self {
            Handler::InitFirstName => HandlerView::InitFirstName,
            Handler::InitFirstBalance { first } => HandlerView::InitFirstBalance { first: first@ },
            Handler::InitSecondName { first, first_balance } => HandlerView::InitSecondName {
                first: first@,
                first_balance,
            },
            Handler::InitSecondBalance {
                first,
                first_balance,
                second,
            } => HandlerView::InitSecondBalance { first: first@, first_balance, second: second@ },
            Handler::InitFirstWrite { second, second_balance } => HandlerView::InitFirstWrite {
                second: second@,
                second_balance,
            },
            Handler::InitSecondWrite => HandlerView::InitSecondWrite,
            Handler::InvokeFrom => HandlerView::InvokeFrom,
            Handler::InvokeTo { from } => HandlerView::InvokeTo { from: from@ },
            Handler::InvokeAmount { from, to } => HandlerView::InvokeAmount {
                from: from@,
                to: to@,
            },
            Handler::InvokeFromBalance { from, to, amount } => HandlerView::InvokeFromBalance {
                from: from@,
                to: to@,
                amount,
            },
            Handler::InvokeToBalance {
                from,
                to,
                amount,
                from_balance,
            } => HandlerView::InvokeToBalance { from: from@, to: to@, amount, from_balance },
            Handler::InvokeDebit { to, from_balance, to_balance } => HandlerView::InvokeDebit {
                to: to@,
                from_balance,
                to_balance,
            },
            Handler::InvokeCredit { from_balance, to_balance } => HandlerView::InvokeCredit {
                from_balance,
                to_balance,
            },
            Handler::QueryName => HandlerView::QueryName,
            Handler::QueryBalance => HandlerView::QueryBalance,
            Handler::DeleteName => HandlerView::DeleteName,
            Handler::DeleteRemoval => HandlerView::DeleteRemoval,
        }
    }
}

impl View for Step {
    type V = StepView;

    open spec fn view(&self) -> StepView {
        match *self {
            Step::Call(request, handler) => StepView::Call(request@, handler@),
            Step::Return(outcome) => StepView::Return(outcome@),
        }
    }
}

impl HandlerView {
    /// The state in which `entry` waits for its first parameter.
    pub open spec fn first(entry: EntryPoint) -> HandlerView {
        match entry {
            EntryPoint::Init => HandlerView::InitFirstName,
            EntryPoint::Invoke => HandlerView::InvokeFrom,
            EntryPoint::Query => HandlerView::QueryName,
            EntryPoint::Delete => HandlerView::DeleteName,
        }
    }

    /// How many host calls, this one included, the handler may still wait
    /// for before the call is over.
    pub open spec fn pending(self) -> nat {
        match self {
            HandlerView::InitFirstName => 6,
            HandlerView::InitFirstBalance { .. } => 5,
            HandlerView::InitSecondName { .. } => 4,
            HandlerView::InitSecondBalance { .. } => 3,
            HandlerView::InitFirstWrite { .. } => 2,
            HandlerView::InitSecondWrite => 1,
            HandlerView::InvokeFrom => 7,
            HandlerView::InvokeTo { .. } => 6,
            HandlerView::InvokeAmount { .. } => 5,
            HandlerView::InvokeFromBalance { .. } => 4,
            HandlerView::InvokeToBalance { .. } => 3,
            HandlerView::InvokeDebit { .. } => 2,
            HandlerView::InvokeCredit { .. } => 1,
            HandlerView::QueryName => 2,
            HandlerView::QueryBalance => 1,
            HandlerView::DeleteName => 2,
            HandlerView::DeleteRemoval => 1,
        }
    }
}

impl StepView {
    /// How many host calls the step may still lead to.
    pub open spec fn pending(self) -> nat {
        match self {
            StepView::Call(_, handler) => handler.pending(),
            StepView::Return(_) => 0,
        }
    }
}

/// The first step of `entry` when the host calls it with `arg_count`
/// arguments: the wrong count ends the call at once, before any parameter is
/// fetched and before the ledger is touched; the right one fetches the first
/// parameter.
pub open spec fn begin_spec(entry: EntryPoint, arg_count: i64) -> StepView {
    if arg_count != entry.spec_arity() {
        StepView::Return(failure(Error::ArityMismatch(entry)))
    } else {
        StepView::Call(RequestView::GetParameter { index: 0 }, HandlerView::first(entry))
    }
}

/// The step that `handler` takes when the host answers `reply`.
///
/// `init` reads a name, a balance, a name and a balance, then stores the
/// first account and the second; it does not look at what the ledger held.
/// `invoke` reads two names and an amount, loads the balance to debit and
/// the balance to credit, computes the transfer, then stores the debited
/// balance and the credited one. It does not undo the first write when the
/// second fails: that failure is reported, and the ledger is left with the
/// debit alone. `query` reads a name and loads its balance. `delete` reads a
/// name and removes it.
pub open spec fn resume_spec(handler: HandlerView, reply: ReplyView) -> StepView {
    match handler {
        HandlerView::InitFirstName => match read_string_spec(reply) {
            Ok(first) => StepView::Call(
                RequestView::GetParameter { index: 1 },
                HandlerView::InitFirstBalance { first },
            ),
            Err(error) => StepView::Return(failure(error)),
        },
        HandlerView::InitFirstBalance { first } => match read_balance_spec(reply) {
            Ok(first_balance) => StepView::Call(
                RequestView::GetParameter { index: 2 },
                HandlerView::InitSecondName { first, first_balance },
            ),
            Err(error) => StepView::Return(failure(error)),
        },
        HandlerView::InitSecondName { first, first_balance } => match read_string_spec(reply) {
            Ok(second) => StepView::Call(
                RequestView::GetParameter { index: 3 },
                HandlerView::InitSecondBalance { first, first_balance, second },
            ),
            Err(error) => StepView::Return(failure(error)),
        },
        HandlerView::InitSecondBalance { first, first_balance, second } => match read_balance_spec(
            reply,
        ) {
            Ok(second_balance) => StepView::Call(
                RequestView::PutState { key: first, value: decimal_digits(first_balance as nat) },
                HandlerView::InitFirstWrite { second, second_balance },
            ),
            Err(error) => StepView::Return(failure(error)),
        },
        HandlerView::InitFirstWrite { second, second_balance } => match confirm_store_spec(
            reply,
            Write::First,
        ) {
            Ok(_) => StepView::Call(
                RequestView::PutState { key: second, value: decimal_digits(second_balance as nat) },
                HandlerView::InitSecondWrite,
            ),
            Err(error) => StepView::Return(failure(error)),
        },
        HandlerView::InitSecondWrite => match confirm_store_spec(reply, Write::Second) {
            Ok(_) => StepView::Return(initialised()),
            Err(error) => StepView::Return(failure(error)),
        },
        HandlerView::InvokeFrom => match read_string_spec(reply) {
            Ok(from) => StepView::Call(
                RequestView::GetParameter { index: 1 },
                HandlerView::InvokeTo { from },
            ),
            Err(error) => StepView::Return(failure(error)),
        },
        HandlerView::InvokeTo { from } => match read_string_spec(reply) {
            Ok(to) => StepView::Call(
                RequestView::GetParameter { index: 2 },
                HandlerView::InvokeAmount { from, to },
            ),
            Err(error) => StepView::Return(failure(error)),
        },
        HandlerView::InvokeAmount { from, to } => match read_balance_spec(reply) {
            Ok(amount) => StepView::Call(
                RequestView::GetState { key: from },
                HandlerView::InvokeFromBalance { from, to, amount },
            ),
            Err(error) => StepView::Return(failure(error)),
        },
        HandlerView::InvokeFromBalance { from, to, amount } => match load_balance_spec(
            reply,
            Lookup::From,
        ) {
            Ok(from_balance) => StepView::Call(
                RequestView::GetState { key: to },
                HandlerView::InvokeToBalance { from, to, amount, from_balance },
            ),
            Err(error) => StepView::Return(failure(error)),
        },
        HandlerView::InvokeToBalance { from, to, amount, from_balance } => match load_balance_spec(
            reply,
            Lookup::To,
        ) {
            Ok(to_balance) => match transfer_spec(from_balance, to_balance, amount) {
                Ok((debited, credited)) => StepView::Call(
                    RequestView::PutState { key: from, value: decimal_digits(debited as nat) },
                    HandlerView::InvokeDebit { to, from_balance: debited, to_balance: credited },
                ),
                Err(error) => StepView::Return(failure(error)),
            },
            Err(error) => StepView::Return(failure(error)),
        },
        HandlerView::InvokeDebit { to, from_balance, to_balance } => match confirm_store_spec(
            reply,
            Write::From,
        ) {
            Ok(_) => StepView::Call(
                RequestView::PutState { key: to, value: decimal_digits(to_balance as nat) },
                HandlerView::InvokeCredit { from_balance, to_balance },
            ),
            Err(error) => StepView::Return(failure(error)),
        },
        HandlerView::InvokeCredit { from_balance, to_balance } => match confirm_store_spec(
            reply,
            Write::To,
        ) {
            Ok(_) => StepView::Return(transferred(from_balance, to_balance)),
            Err(error) => StepView::Return(failure(error)),
        },
        HandlerView::QueryName => match read_string_spec(reply) {
            Ok(name) => StepView::Call(
                RequestView::GetState { key: name },
                HandlerView::QueryBalance,
            ),
            Err(error) => StepView::Return(failure(error)),
        },
        HandlerView::QueryBalance => match load_balance_spec(reply, Lookup::Queried) {
            Ok(balance) => StepView::Return(reported(balance)),
            Err(error) => StepView::Return(failure(error)),
        },
        HandlerView::DeleteName => match read_string_spec(reply) {
            Ok(name) => StepView::Call(
                RequestView::DeleteState { key: name },
                HandlerView::DeleteRemoval,
            ),
            Err(error) => StepView::Return(failure(error)),
        },
        HandlerView::DeleteRemoval => match confirm_remove_spec(reply) {
            Ok(_) => StepView::Return(removed()),
            Err(error) => StepView::Return(failure(error)),
        },
    }
}

/// Every reply brings a handler closer to the end of its call.
pub proof fn lemma_resume_makes_progress(handler: HandlerView, reply: ReplyView)
    ensures
        resume_spec(handler, reply).pending() < handler.pending(),
{
}

impl Handler {
    /// The state in which `entry` waits for its first parameter.
    pub fn first(entry: EntryPoint) -> (handler: Handler)
        ensures
            handler@ == HandlerView::first(entry),
    {
        match entry {
            EntryPoint::Init => Handler::InitFirstName,
            EntryPoint::Invoke => Handler::InvokeFrom,
            EntryPoint::Query => Handler::QueryName,
            EntryPoint::Delete => Handler::DeleteName,
        }
    }

    /// Takes the host's reply to the call that the handler asked for and
    /// says what to do next.
    pub fn resume(self, reply: Reply) -> (step: Step)
        ensures
            step@ == resume_spec(self@, reply@),
            step@.pending() < self@.pending(),
    {
        match self {
            Handler::InitFirstName => match read_string(reply) {
                Ok(first) => Step::Call(parameter(1), Handler::InitFirstBalance { first }),
                Err(error) => Step::Return(Outcome::failure(error)),
            },
            Handler::InitFirstBalance { first } => match read_balance(reply) {
                Ok(first_balance) => Step::Call(
                    parameter(2),
                    Handler::InitSecondName { first, first_balance },
                ),
                Err(error) => Step::Return(Outcome::failure(error)),
            },
            Handler::InitSecondName { first, first_balance } => match read_string(reply) {
                Ok(second) => Step::Call(
                    parameter(3),
                    Handler::InitSecondBalance { first, first_balance, second },
                ),
                Err(error) => Step::Return(Outcome::failure(error)),
            },
            Handler::InitSecondBalance { first, first_balance, second } => match read_balance(
                reply,
            ) {
                Ok(second_balance) => Step::Call(
                    store_balance(first, first_balance),
                    Handler::InitFirstWrite { second, second_balance },
                ),
                Err(error) => Step::Return(Outcome::failure(error)),
            },
            Handler::InitFirstWrite { second, second_balance } => match confirm_store(
                reply,
                Write::First,
            ) {
                Ok(()) => Step::Call(
                    store_balance(second, second_balance),
                    Handler::InitSecondWrite,
                ),
                Err(error) => Step::Return(Outcome::failure(error)),
            },
            Handler::InitSecondWrite => match confirm_store(reply, Write::Second) {
                Ok(()) => Step::Return(Outcome::initialised()),
                Err(error) => Step::Return(Outcome::failure(error)),
            },
            Handler::InvokeFrom => match read_string(reply) {
                Ok(from) => Step::Call(parameter(1), Handler::InvokeTo { from }),
                Err(error) => Step::Return(Outcome::failure(error)),
            },
            Handler::InvokeTo { from } => match read_string(reply) {
                Ok(to) => Step::Call(parameter(2), Handler::InvokeAmount { from, to }),
                Err(error) => Step::Return(Outcome::failure(error)),
            },
            Handler::InvokeAmount { from, to } => match read_balance(reply) {
                Ok(amount) => Step::Call(
                    load(from.clone()),
                    Handler::InvokeFromBalance { from, to, amount },
                ),
                Err(error) => Step::Return(Outcome::failure(error)),
            },
            Handler::InvokeFromBalance { from, to, amount } => match load_balance(
                reply,
                Lookup::From,
            ) {
                Ok(from_balance) => Step::Call(
                    load(to.clone()),
                    Handler::InvokeToBalance { from, to, amount, from_balance },
                ),
                Err(error) => Step::Return(Outcome::failure(error)),
            },
            Handler::InvokeToBalance { from, to, amount, from_balance } => match load_balance(
                reply,
                Lookup::To,
            ) {
                Ok(to_balance) => match transfer(from_balance, to_balance, amount) {
                    Ok((debited, credited)) => Step::Call(
                        store_balance(from, debited),
                        Handler::InvokeDebit { to, from_balance: debited, to_balance: credited },
                    ),
                    Err(error) => Step::Return(Outcome::failure(error)),
                },
                Err(error) => Step::Return(Outcome::failure(error)),
            },
            Handler::InvokeDebit { to, from_balance, to_balance } => match confirm_store(
                reply,
                Write::From,
            ) {
                Ok(()) => Step::Call(
                    store_balance(to, to_balance),
                    Handler::InvokeCredit { from_balance, to_balance },
                ),
                Err(error) => Step::Return(Outcome::failure(error)),
            },
            Handler::InvokeCredit { from_balance, to_balance } => match confirm_store(
                reply,
                Write::To,
            ) {
                Ok(()) => Step::Return(Outcome::transferred(from_balance, to_balance)),
                Err(error) => Step::Return(Outcome::failure(error)),
            },
            Handler::QueryName => match read_string(reply) {
                Ok(name) => Step::Call(load(name), Handler::QueryBalance),
                Err(error) => Step::Return(Outcome::failure(error)),
            },
            Handler::QueryBalance => match load_balance(reply, Lookup::Queried) {
                Ok(balance) => Step::Return(Outcome::reported(balance)),
                Err(error) => Step::Return(Outcome::failure(error)),
            },
            Handler::DeleteName => match read_string(reply) {
                Ok(name) => Step::Call(remove_account(name), Handler::DeleteRemoval),
                Err(error) => Step::Return(Outcome::failure(error)),
            },
            Handler::DeleteRemoval => match confirm_remove(reply) {
                Ok(()) => Step::Return(Outcome::removed()),
                Err(error) => Step::Return(Outcome::failure(error)),
            },
        }
    }
}

/// Starts `entry` for a call with `arg_count` arguments.
pub fn begin(entry: EntryPoint, arg_count: i64) -> (step: Step)
    ensures
        step@ == begin_spec(entry, arg_count),
{
    if arg_count != entry.arity() {
        Step::Return(Outcome::failure(Error::ArityMismatch(entry)))
    } else {
        Step::Call(parameter(0), Handler::first(entry))
    }
}

/// Starts `init`: four arguments, the name and the balance of one account
/// and of another. Both accounts are stored, whatever the ledger held.
pub fn init(arg_count: i64) -> (step: Step)
    ensures
        step@ == begin_spec(EntryPoint::Init, arg_count),
{
    begin(EntryPoint::Init, arg_count)
}

/// Starts `invoke`: three arguments, the account to debit, the account to
/// credit, and the amount to move.
pub fn invoke(arg_count: i64) -> (step: Step)
    ensures
        step@ == begin_spec(EntryPoint::Invoke, arg_count),
{
    begin(EntryPoint::Invoke, arg_count)
}

/// Starts `query`: one argument, the account whose balance is wanted.
pub fn query(arg_count: i64) -> (step: Step)
    ensures
        step@ == begin_spec(EntryPoint::Query, arg_count),
{
    begin(EntryPoint::Query, arg_count)
}

/// Starts `delete`: one argument, the account to remove.
pub fn delete(arg_count: i64) -> (step: Step)
    ensures
        step@ == begin_spec(EntryPoint::Delete, arg_count),
{
    begin(EntryPoint::Delete, arg_count)
}

} // verus!

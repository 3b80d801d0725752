//! What holds of every call that the host in memory runs to its end.

use vstd::prelude::*;
use vstd::utf8::decode_utf8;
use vstd::utf8::valid_utf8;
use crate::decimal::decimal_digits;
use crate::decimal::decimal_value;
use crate::decimal::is_decimal;
use crate::decimal::lemma_decimal_round_trip;
use crate::error::EntryPoint;
use crate::error::Error;
use crate::error::Lookup;
use crate::error::Write;
use crate::handler::begin_spec;
use crate::host::HostView;
use crate::protocol::failure;
use crate::protocol::initialised;
use crate::protocol::removed;
use crate::protocol::reported;
use crate::protocol::transferred;
use crate::protocol::RequestView;
use crate::text::lemma_decimal_is_utf8;

verus! {

/// `ledger` holds an account `name` whose stored value is a balance.
pub open spec fn has_balance(ledger: Map<Seq<char>, Seq<u8>>, name: Seq<char>) -> bool {
    &&& ledger.contains_key(name)
    &&& is_decimal(ledger[name])
    &&& decimal_value(ledger[name]) <= u64::MAX
}

/// The balance that `ledger` holds for `name`.
pub open spec fn balance(ledger: Map<Seq<char>, Seq<u8>>, name: Seq<char>) -> nat {
    decimal_value(ledger[name])
}

/// `parameter` is the text `name` in UTF-8.
pub open spec fn spells_name(parameter: Seq<u8>, name: Seq<char>) -> bool {
    valid_utf8(parameter) && decode_utf8(parameter) == name
}

/// `parameter` is `amount` in decimal digits.
pub open spec fn spells_amount(parameter: Seq<u8>, amount: u64) -> bool {
    is_decimal(parameter) && decimal_value(parameter) == amount
}

/// `parameters` are the arguments of a transfer of `amount` from the
/// account `from` to the account `to`.
pub open spec fn names_transfer(
    parameters: Seq<Seq<u8>>,
    from: Seq<char>,
    to: Seq<char>,
    amount: u64,
) -> bool {
    &&& parameters.len() >= 3
    &&& spells_name(parameters[0], from)
    &&& spells_name(parameters[1], to)
    &&& spells_amount(parameters[2], amount)
}

/// `request` leaves the ledger as it is.
pub open spec fn reads_only(request: RequestView) -> bool {
    request is GetParameter || request is GetState
}

/// Every request that `after` has served and `before` had not leaves the
/// ledger as it is.
pub open spec fn only_read_since(before: HostView, after: HostView) -> bool {
    forall|i: int|
        before.journal.len() <= i < after.journal.len() ==> reads_only(#[trigger] after.journal[i])
}

/// A call with the wrong number of arguments asks nothing of the host: no
/// parameter is fetched, the ledger is neither read nor written, and the
/// call fails with `ArityMismatch`.
pub proof fn lemma_arity_gate(host: HostView, entry: EntryPoint, arg_count: i64)
    requires
        arg_count != entry.spec_arity(),
    ensures
        begin_spec(entry, arg_count) is Return,
        host.run(begin_spec(entry, arg_count)) == (host, failure(Error::ArityMismatch(entry))),
{
}

/// An `init` with two names and two balances stores both accounts, in that
/// order, whatever the ledger held under the two names.
pub proof fn lemma_init_stores(
    host: HostView,
    first: Seq<char>,
    first_balance: u64,
    second: Seq<char>,
    second_balance: u64,
)
    requires
        host.parameters.len() >= 4,
        spells_name(host.parameters[0], first),
        spells_amount(host.parameters[1], first_balance),
        spells_name(host.parameters[2], second),
        spells_amount(host.parameters[3], second_balance),
        host.confirms(2),
    ensures
        ({
            let (after, outcome) = host.run(begin_spec(EntryPoint::Init, 4));
            &&& outcome == initialised()
            &&& after.ledger == host.ledger.insert(
                first,
                decimal_digits(first_balance as nat),
            ).insert(second, decimal_digits(second_balance as nat))
            &&& has_balance(after.ledger, second)
            &&& balance(after.ledger, second) == second_balance
            &&& first != second ==> has_balance(after.ledger, first) && balance(
                after.ledger,
                first,
            ) == first_balance
        }),
{
    lemma_decimal_is_utf8(host.parameters[1]);
    lemma_decimal_is_utf8(host.parameters[3]);
    lemma_decimal_round_trip(first_balance as nat);
    lemma_decimal_round_trip(second_balance as nat);
    reveal_with_fuel(HostView::run, 7);
}

/// An `init` whose first write the host refuses fails with `StateWriteError`
/// for the first account and stores nothing. One whose second write the host
/// refuses fails with `StateWriteError` for the second account and has
/// stored the first.
pub proof fn lemma_init_write_refused(
    host: HostView,
    first: Seq<char>,
    first_balance: u64,
    second: Seq<char>,
    second_balance: u64,
)
    requires
        host.parameters.len() >= 4,
        spells_name(host.parameters[0], first),
        spells_amount(host.parameters[1], first_balance),
        spells_name(host.parameters[2], second),
        spells_amount(host.parameters[3], second_balance),
        !host.confirms(2),
    ensures
        ({
            let (after, outcome) = host.run(begin_spec(EntryPoint::Init, 4));
            if host.confirms(1) {
                &&& outcome == failure(Error::StateWriteError(Write::Second))
                &&& after.ledger == host.ledger.insert(first, decimal_digits(first_balance as nat))
            } else {
                &&& outcome == failure(Error::StateWriteError(Write::First))
                &&& after.ledger == host.ledger
            }
        }),
{
    lemma_decimal_is_utf8(host.parameters[1]);
    lemma_decimal_is_utf8(host.parameters[3]);
    reveal_with_fuel(HostView::run, 7);
}

/// A transfer between two different accounts of an amount that the debited
/// account holds keeps the sum of the two balances, on a host that confirms
/// both writes.
///
/// Where the credited account can hold the amount, the transfer succeeds
/// and moves exactly `amount`: one balance falls by it, the other rises by
/// it, and no other account changes. Where it cannot, the transfer fails
/// with `BalanceOverflow` and the ledger is what it was.
pub proof fn lemma_invoke_conserves(host: HostView, from: Seq<char>, to: Seq<char>, amount: u64)
    requires
        names_transfer(host.parameters, from, to, amount),
        has_balance(host.ledger, from),
        has_balance(host.ledger, to),
        from != to,
        amount <= balance(host.ledger, from),
        host.confirms(2),
    ensures
        ({
            let (after, outcome) = host.run(begin_spec(EntryPoint::Invoke, 3));
            let debited = (balance(host.ledger, from) - amount) as u64;
            let credited = balance(host.ledger, to) + amount;
            &&& has_balance(after.ledger, from)
            &&& has_balance(after.ledger, to)
            &&& balance(after.ledger, from) + balance(after.ledger, to) == balance(
                host.ledger,
                from,
            ) + balance(host.ledger, to)
            &&& credited <= u64::MAX ==> {
                &&& outcome == transferred(debited, credited as u64)
                &&& after.ledger == host.ledger.insert(from, decimal_digits(debited as nat)).insert(
                    to,
                    decimal_digits(credited as nat),
                )
                &&& balance(after.ledger, from) == balance(host.ledger, from) - amount
                &&& balance(after.ledger, to) == balance(host.ledger, to) + amount
            }
            &&& credited > u64::MAX ==> {
                &&& outcome == failure(Error::BalanceOverflow)
                &&& after.ledger == host.ledger
            }
        }),
{
    let debited = (balance(host.ledger, from) - amount) as u64;
    let credited = balance(host.ledger, to) + amount;
    lemma_decimal_is_utf8(host.parameters[2]);
    lemma_decimal_round_trip(debited as nat);
    lemma_decimal_round_trip(credited as nat);
    reveal_with_fuel(HostView::run, 8);
}

/// A transfer of more than the debited account holds fails with
/// `InsufficientFunds` and asks for no write: the ledger is what it was.
pub proof fn lemma_invoke_no_overdraft(host: HostView, from: Seq<char>, to: Seq<char>, amount: u64)
    requires
        names_transfer(host.parameters, from, to, amount),
        has_balance(host.ledger, from),
        has_balance(host.ledger, to),
        amount > balance(host.ledger, from),
    ensures
        ({
            let (after, outcome) = host.run(begin_spec(EntryPoint::Invoke, 3));
            &&& outcome == failure(Error::InsufficientFunds)
            &&& after.ledger == host.ledger
            &&& only_read_since(host, after)
        }),
{
    lemma_decimal_is_utf8(host.parameters[2]);
    reveal_with_fuel(HostView::run, 8);
}

/// A transfer whose first write the host refuses fails with
/// `StateWriteError` for the debited account and leaves the ledger as it
/// was.
pub proof fn lemma_invoke_debit_refused(
    host: HostView,
    from: Seq<char>,
    to: Seq<char>,
    amount: u64,
)
    requires
        names_transfer(host.parameters, from, to, amount),
        has_balance(host.ledger, from),
        has_balance(host.ledger, to),
        amount <= balance(host.ledger, from),
        balance(host.ledger, to) + amount <= u64::MAX,
        host.writes_left == Some(0nat),
    ensures
        ({
            let (after, outcome) = host.run(begin_spec(EntryPoint::Invoke, 3));
            &&& outcome == failure(Error::StateWriteError(Write::From))
            &&& after.ledger == host.ledger
        }),
{
    lemma_decimal_is_utf8(host.parameters[2]);
    reveal_with_fuel(HostView::run, 8);
}

/// A transfer whose second write the host refuses is not undone. It fails
/// with `StateWriteError` for the credited account, and the ledger is left
/// with the debit alone: between two different accounts, the amount is in
/// neither.
pub proof fn lemma_invoke_credit_refused(
    host: HostView,
    from: Seq<char>,
    to: Seq<char>,
    amount: u64,
)
    requires
        names_transfer(host.parameters, from, to, amount),
        has_balance(host.ledger, from),
        has_balance(host.ledger, to),
        amount <= balance(host.ledger, from),
        balance(host.ledger, to) + amount <= u64::MAX,
        host.writes_left == Some(1nat),
    ensures
        ({
            let (after, outcome) = host.run(begin_spec(EntryPoint::Invoke, 3));
            let debited = (balance(host.ledger, from) - amount) as u64;
            &&& outcome == failure(Error::StateWriteError(Write::To))
            &&& after.ledger == host.ledger.insert(from, decimal_digits(debited as nat))
            &&& balance(after.ledger, from) == balance(host.ledger, from) - amount
            &&& from != to ==> balance(after.ledger, to) == balance(host.ledger, to)
        }),
{
    let debited = (balance(host.ledger, from) - amount) as u64;
    lemma_decimal_is_utf8(host.parameters[2]);
    lemma_decimal_round_trip(debited as nat);
    reveal_with_fuel(HostView::run, 8);
}

/// A transfer that fails has changed nothing in the ledger, whatever made it
/// fail, with one exception: the refusal of its second write.
pub proof fn lemma_invoke_fails_clean(host: HostView, arg_count: i64)
    ensures
        ({
            let (after, outcome) = host.run(begin_spec(EntryPoint::Invoke, arg_count));
            outcome.error is Some && outcome.error != Some(Error::StateWriteError(Write::To))
                ==> after.ledger == host.ledger
        }),
{
    reveal_with_fuel(HostView::run, 8);
}

/// A query changes nothing that a later call could see: whatever the
/// arguments and the ledger, it makes no request but reads, and the host is
/// after it what it was before, but for the journal.
pub proof fn lemma_query_reads_only(host: HostView, arg_count: i64)
    ensures
        ({
            let (after, outcome) = host.run(begin_spec(EntryPoint::Query, arg_count));
            &&& after == (HostView { journal: after.journal, ..host })
            &&& only_read_since(host, after)
        }),
{
    reveal_with_fuel(HostView::run, 3);
}

/// The answer to a query depends on the arguments and on the ledger alone,
/// so a second query right after a first gets the same answer.
pub proof fn lemma_query_repeats(host: HostView, arg_count: i64)
    ensures
        ({
            let (after, first) = host.run(begin_spec(EntryPoint::Query, arg_count));
            let (_, second) = after.run(begin_spec(EntryPoint::Query, arg_count));
            second == first
        }),
{
    reveal_with_fuel(HostView::run, 3);
}

/// A query for `name` reports the balance of that account, fails with
/// `AccountNotFound` where the ledger has no such account, and fails with
/// `CorruptState` where what is stored is not a balance.
pub proof fn lemma_query_reports(host: HostView, name: Seq<char>)
    requires
        host.parameters.len() >= 1,
        spells_name(host.parameters[0], name),
    ensures
        ({
            let (_, outcome) = host.run(begin_spec(EntryPoint::Query, 1));
            outcome == if has_balance(host.ledger, name) {
                reported(balance(host.ledger, name) as u64)
            } else if host.ledger.contains_key(name) {
                failure(Error::CorruptState)
            } else {
                failure(Error::AccountNotFound(Lookup::Queried))
            }
        }),
{
    reveal_with_fuel(HostView::run, 3);
}

/// A `delete` of `name` that the host confirms removes that account and no
/// other, whether the account was there or not, and a query for `name`
/// right after it fails with `AccountNotFound`. One that the host refuses
/// fails with `StateDeleteError` and leaves the ledger as it was.
pub proof fn lemma_delete_removes(host: HostView, name: Seq<char>)
    requires
        host.parameters.len() >= 1,
        spells_name(host.parameters[0], name),
    ensures
        ({
            let (after, outcome) = host.run(begin_spec(EntryPoint::Delete, 1));
            let (_, answer) = after.run(begin_spec(EntryPoint::Query, 1));
            if host.confirms(1) {
                &&& outcome == removed()
                &&& after.ledger == host.ledger.remove(name)
                &&& answer == failure(Error::AccountNotFound(Lookup::Queried))
            } else {
                &&& outcome == failure(Error::StateDeleteError)
                &&& after.ledger == host.ledger
            }
        }),
{
    reveal_with_fuel(HostView::run, 3);
}

} // verus!

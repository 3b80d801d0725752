use balance_ledger::error::EntryPoint;
use balance_ledger::error::Error;
use balance_ledger::error::Lookup;
use balance_ledger::error::Write;
use balance_ledger::host::MemoryHost;
use balance_ledger::protocol::Outcome;
use balance_ledger::protocol::Request;

fn call(host: &mut MemoryHost, entry: EntryPoint, arguments: &[&str]) -> Outcome {
    host.set_parameters(arguments.iter().map(|a| a.as_bytes().to_vec()).collect());
    host.call(entry, arguments.len() as i64)
}

fn alice_and_bob() -> MemoryHost {
    let mut host = MemoryHost::new();
    let outcome = call(&mut host, EntryPoint::Init, &["alice", "100", "bob", "10"]);
    assert_eq!(outcome.error, None);
    host
}

fn answer(host: &mut MemoryHost, name: &str) -> Vec<u8> {
    let outcome = call(host, EntryPoint::Query, &[name]);
    assert_eq!(outcome.error, None);
    outcome.result.expect("a query that succeeds sets a result")
}

fn total(host: &MemoryHost, one: &str, other: &str) -> u128 {
    let one = host.get_balance(&one.to_string()).unwrap();
    let other = host.get_balance(&other.to_string()).unwrap();
    one as u128 + other as u128
}

#[test]
fn init_then_invoke_then_query() {
    let mut host = alice_and_bob();
    let outcome = call(&mut host, EntryPoint::Invoke, &["alice", "bob", "30"]);
    assert_eq!(outcome.error, None);
    assert_eq!(outcome.status(), 0);
    assert_eq!(answer(&mut host, "alice"), b"70".to_vec());
    assert_eq!(answer(&mut host, "bob"), b"40".to_vec());
}

#[test]
fn invoke_beyond_the_balance_is_refused() {
    let mut host = alice_and_bob();
    call(&mut host, EntryPoint::Invoke, &["alice", "bob", "30"]);
    assert_eq!(answer(&mut host, "alice"), b"70".to_vec());
    let outcome = call(&mut host, EntryPoint::Invoke, &["alice", "bob", "1000"]);
    assert_eq!(outcome.error, Some(Error::InsufficientFunds));
    assert_eq!(outcome.status(), -1);
    assert_eq!(outcome.log, Some(b"ERROR! insufficient units in from account".to_vec()));
    assert_eq!(outcome.result, Some(b"ERROR! insufficient units in from account".to_vec()));
    assert_eq!(answer(&mut host, "alice"), b"70".to_vec());
    assert_eq!(answer(&mut host, "bob"), b"40".to_vec());
}

#[test]
fn query_without_init_finds_no_account() {
    let mut host = MemoryHost::new();
    let outcome = call(&mut host, EntryPoint::Query, &["carol"]);
    assert_eq!(outcome.error, Some(Error::AccountNotFound(Lookup::Queried)));
    assert_eq!(outcome.status(), -1);
    assert_eq!(outcome.log, Some(b"ERROR! account not found".to_vec()));
    assert_eq!(outcome.result, Some(b"ERROR! account not found".to_vec()));
}

#[test]
fn delete_then_query_finds_no_account() {
    let mut host = alice_and_bob();
    let outcome = call(&mut host, EntryPoint::Delete, &["alice"]);
    assert_eq!(outcome.error, None);
    assert_eq!(outcome.status(), 0);
    assert_eq!(outcome.result, Some(b"Success! Account deleted".to_vec()));
    let outcome = call(&mut host, EntryPoint::Query, &["alice"]);
    assert_eq!(outcome.error, Some(Error::AccountNotFound(Lookup::Queried)));
    assert_eq!(answer(&mut host, "bob"), b"10".to_vec());
}

#[test]
fn transfer_conserves_the_sum() {
    let mut host = alice_and_bob();
    let before = total(&host, "alice", "bob");
    let outcome = call(&mut host, EntryPoint::Invoke, &["alice", "bob", "100"]);
    assert_eq!(outcome.error, None);
    assert_eq!(host.get_balance(&"alice".to_string()), Ok(0));
    assert_eq!(host.get_balance(&"bob".to_string()), Ok(110));
    assert_eq!(total(&host, "alice", "bob"), before);
    let outcome = call(&mut host, EntryPoint::Invoke, &["bob", "alice", "1"]);
    assert_eq!(outcome.error, None);
    assert_eq!(host.get_balance(&"alice".to_string()), Ok(1));
    assert_eq!(host.get_balance(&"bob".to_string()), Ok(109));
    assert_eq!(total(&host, "alice", "bob"), before);
}

#[test]
fn transfer_of_nothing_changes_nothing() {
    let mut host = alice_and_bob();
    let outcome = call(&mut host, EntryPoint::Invoke, &["alice", "bob", "0"]);
    assert_eq!(outcome.error, None);
    assert_eq!(outcome.log, Some(b"Aval = 100 Bval = 10".to_vec()));
    assert_eq!(host.get_balance(&"alice".to_string()), Ok(100));
    assert_eq!(host.get_balance(&"bob".to_string()), Ok(10));
}

#[test]
fn transfer_reports_both_balances() {
    let mut host = alice_and_bob();
    let outcome = call(&mut host, EntryPoint::Invoke, &["alice", "bob", "30"]);
    assert_eq!(outcome.log, Some(b"Aval = 70 Bval = 40".to_vec()));
    assert_eq!(outcome.result, Some(b"Successfully transferred account balance".to_vec()));
}

#[test]
fn transfer_asks_in_order_and_debits_first() {
    let mut host = alice_and_bob();
    let served = host.journal().len();
    call(&mut host, EntryPoint::Invoke, &["alice", "bob", "30"]);
    let expected = vec![
        Request::GetParameter { index: 0 },
        Request::GetParameter { index: 1 },
        Request::GetParameter { index: 2 },
        Request::GetState { key: "alice".to_string() },
        Request::GetState { key: "bob".to_string() },
        Request::PutState { key: "alice".to_string(), value: b"70".to_vec() },
        Request::PutState { key: "bob".to_string(), value: b"40".to_vec() },
    ];
    assert_eq!(&host.journal()[served..], &expected[..]);
}

#[test]
fn overdraft_by_one_is_refused_and_writes_nothing() {
    let mut host = alice_and_bob();
    let served = host.journal().len();
    let outcome = call(&mut host, EntryPoint::Invoke, &["alice", "bob", "101"]);
    assert_eq!(outcome.error, Some(Error::InsufficientFunds));
    assert_eq!(host.stored(&"alice".to_string()), Some(b"100".to_vec()));
    assert_eq!(host.stored(&"bob".to_string()), Some(b"10".to_vec()));
    for request in &host.journal()[served..] {
        assert!(matches!(request, Request::GetParameter { .. } | Request::GetState { .. }));
    }
}

#[test]
fn whole_balance_can_be_moved() {
    let mut host = alice_and_bob();
    let outcome = call(&mut host, EntryPoint::Invoke, &["bob", "alice", "10"]);
    assert_eq!(outcome.error, None);
    assert_eq!(answer(&mut host, "bob"), b"0".to_vec());
    assert_eq!(answer(&mut host, "alice"), b"110".to_vec());
}

#[test]
fn transfer_from_unknown_account() {
    let mut host = alice_and_bob();
    let outcome = call(&mut host, EntryPoint::Invoke, &["carol", "bob", "1"]);
    assert_eq!(outcome.error, Some(Error::AccountNotFound(Lookup::From)));
    assert_eq!(outcome.log, Some(b"ERROR! from account not found".to_vec()));
    assert_eq!(outcome.result, Some(b"ERROR! from account not found".to_vec()));
    assert_eq!(host.stored(&"carol".to_string()), None);
    assert_eq!(answer(&mut host, "bob"), b"10".to_vec());
}

#[test]
fn transfer_to_unknown_account() {
    let mut host = alice_and_bob();
    let outcome = call(&mut host, EntryPoint::Invoke, &["alice", "carol", "1"]);
    assert_eq!(outcome.error, Some(Error::AccountNotFound(Lookup::To)));
    assert_eq!(outcome.log, Some(b"ERROR! to account not found".to_vec()));
    assert_eq!(host.stored(&"carol".to_string()), None);
    assert_eq!(answer(&mut host, "alice"), b"100".to_vec());
}

#[test]
fn unknown_recipient_is_reported_before_the_funds_are_checked() {
    let mut host = alice_and_bob();
    let outcome = call(&mut host, EntryPoint::Invoke, &["alice", "carol", "1000"]);
    assert_eq!(outcome.error, Some(Error::AccountNotFound(Lookup::To)));
}

#[test]
fn transfer_that_would_overflow_is_refused() {
    let mut host = MemoryHost::new();
    call(&mut host, EntryPoint::Init, &["rich", "18446744073709551615", "poor", "1"]);
    let outcome = call(&mut host, EntryPoint::Invoke, &["poor", "rich", "1"]);
    assert_eq!(outcome.error, Some(Error::BalanceOverflow));
    assert_eq!(outcome.status(), -1);
    assert_eq!(host.get_balance(&"rich".to_string()), Ok(u64::MAX));
    assert_eq!(host.get_balance(&"poor".to_string()), Ok(1));
    let outcome = call(&mut host, EntryPoint::Invoke, &["rich", "poor", "18446744073709551614"]);
    assert_eq!(outcome.error, None);
    assert_eq!(host.get_balance(&"rich".to_string()), Ok(1));
    assert_eq!(host.get_balance(&"poor".to_string()), Ok(u64::MAX));
}

#[test]
fn transfer_to_oneself_stores_the_credit_last() {
    let mut host = alice_and_bob();
    let outcome = call(&mut host, EntryPoint::Invoke, &["alice", "alice", "30"]);
    assert_eq!(outcome.error, None);
    assert_eq!(outcome.log, Some(b"Aval = 70 Bval = 130".to_vec()));
    assert_eq!(host.get_balance(&"alice".to_string()), Ok(130));
}

#[test]
fn init_overwrites_what_was_there() {
    let mut host = alice_and_bob();
    let outcome = call(&mut host, EntryPoint::Init, &["alice", "5", "dave", "6"]);
    assert_eq!(outcome.error, None);
    assert_eq!(outcome.log, None);
    assert_eq!(outcome.result, None);
    assert_eq!(host.get_balance(&"alice".to_string()), Ok(5));
    assert_eq!(host.get_balance(&"dave".to_string()), Ok(6));
    assert_eq!(host.get_balance(&"bob".to_string()), Ok(10));
}

#[test]
fn init_with_one_name_twice_keeps_the_second_balance() {
    let mut host = MemoryHost::new();
    let outcome = call(&mut host, EntryPoint::Init, &["alice", "1", "alice", "2"]);
    assert_eq!(outcome.error, None);
    assert_eq!(host.get_balance(&"alice".to_string()), Ok(2));
}

#[test]
fn init_stores_the_shortest_spelling() {
    let mut host = MemoryHost::new();
    let outcome = call(&mut host, EntryPoint::Init, &["alice", "007", "bob", "000"]);
    assert_eq!(outcome.error, None);
    assert_eq!(host.stored(&"alice".to_string()), Some(b"7".to_vec()));
    assert_eq!(host.stored(&"bob".to_string()), Some(b"0".to_vec()));
}

#[test]
fn init_rejects_a_balance_that_is_no_number() {
    let mut host = MemoryHost::new();
    let outcome = call(&mut host, EntryPoint::Init, &["alice", "INR 100", "bob", "10"]);
    assert_eq!(outcome.error, Some(Error::ParseError));
    assert_eq!(outcome.log, Some(b"not a number".to_vec()));
    assert_eq!(outcome.result, Some(b"not a number".to_vec()));
    assert_eq!(host.stored(&"alice".to_string()), None);
    assert_eq!(host.stored(&"bob".to_string()), None);
}

#[test]
fn init_checks_the_second_balance_before_it_stores_the_first() {
    let mut host = MemoryHost::new();
    let outcome = call(&mut host, EntryPoint::Init, &["alice", "100", "bob", "-10"]);
    assert_eq!(outcome.error, Some(Error::ParseError));
    assert_eq!(host.stored(&"alice".to_string()), None);
}

#[test]
fn query_twice_gives_the_same_answer_and_writes_nothing() {
    let mut host = alice_and_bob();
    let served = host.journal().len();
    let first = call(&mut host, EntryPoint::Query, &["alice"]);
    let second = call(&mut host, EntryPoint::Query, &["alice"]);
    assert_eq!(first, second);
    assert_eq!(first.result, Some(b"100".to_vec()));
    assert_eq!(first.log, None);
    assert_eq!(host.stored(&"alice".to_string()), Some(b"100".to_vec()));
    assert_eq!(host.stored(&"bob".to_string()), Some(b"10".to_vec()));
    let expected = vec![
        Request::GetParameter { index: 0 },
        Request::GetState { key: "alice".to_string() },
        Request::GetParameter { index: 0 },
        Request::GetState { key: "alice".to_string() },
    ];
    assert_eq!(&host.journal()[served..], &expected[..]);
}

#[test]
fn query_of_a_corrupt_balance() {
    let mut host = MemoryHost::new();
    host.serve(Request::PutState { key: "alice".to_string(), value: b"INR 100".to_vec() });
    let outcome = call(&mut host, EntryPoint::Query, &["alice"]);
    assert_eq!(outcome.error, Some(Error::CorruptState));
    assert_eq!(outcome.log, Some(b"ERROR! account balance is not a number".to_vec()));
    assert_eq!(outcome.result, Some(b"ERROR! account balance is not a number".to_vec()));
    assert_eq!(host.get_balance(&"alice".to_string()), Err(Error::CorruptState));
}

#[test]
fn transfer_from_a_corrupt_balance() {
    let mut host = alice_and_bob();
    host.serve(Request::PutState { key: "alice".to_string(), value: vec![0xff, 0xfe] });
    let outcome = call(&mut host, EntryPoint::Invoke, &["alice", "bob", "1"]);
    assert_eq!(outcome.error, Some(Error::CorruptState));
    assert_eq!(host.stored(&"bob".to_string()), Some(b"10".to_vec()));
}

#[test]
fn delete_of_an_unknown_account_succeeds() {
    let mut host = alice_and_bob();
    let outcome = call(&mut host, EntryPoint::Delete, &["carol"]);
    assert_eq!(outcome.error, None);
    assert_eq!(outcome.result, Some(b"Success! Account deleted".to_vec()));
    assert_eq!(answer(&mut host, "alice"), b"100".to_vec());
    assert_eq!(answer(&mut host, "bob"), b"10".to_vec());
}

#[test]
fn wrong_argument_count_asks_nothing_of_the_host() {
    let entries = [
        (EntryPoint::Init, 4i64),
        (EntryPoint::Invoke, 3),
        (EntryPoint::Query, 1),
        (EntryPoint::Delete, 1),
    ];
    for (entry, arity) in entries {
        assert_eq!(entry.arity(), arity);
        for count in [-1i64, 0, 1, 2, 3, 4, 5, i64::MAX, i64::MIN] {
            if count == arity {
                continue;
            }
            let mut host = alice_and_bob();
            host.set_parameters(vec![b"alice".to_vec(), b"bob".to_vec(), b"1".to_vec(), b"2".to_vec()]);
            let served = host.journal().len();
            let outcome = host.call(entry, count);
            assert_eq!(outcome.error, Some(Error::ArityMismatch(entry)));
            assert_eq!(outcome.status(), -1);
            assert_eq!(host.journal().len(), served);
            assert_eq!(host.stored(&"alice".to_string()), Some(b"100".to_vec()));
            assert_eq!(host.stored(&"bob".to_string()), Some(b"10".to_vec()));
        }
    }
}

#[test]
fn missing_parameter_ends_the_call() {
    let mut host = alice_and_bob();
    host.set_parameters(vec![b"alice".to_vec(), b"bob".to_vec()]);
    let outcome = host.call(EntryPoint::Invoke, 3);
    assert_eq!(outcome.error, Some(Error::ParameterFetchError));
    assert_eq!(outcome.log, Some(b"Unable to retrieve transaction parameter".to_vec()));
    assert_eq!(outcome.result, Some(b"Unable to retrieve transaction parameter".to_vec()));
    assert_eq!(host.stored(&"alice".to_string()), Some(b"100".to_vec()));
}

#[test]
fn name_that_is_not_text_ends_the_call() {
    let mut host = alice_and_bob();
    host.set_parameters(vec![vec![0x61, 0xff, 0x62]]);
    let outcome = host.call(EntryPoint::Query, 1);
    assert_eq!(outcome.error, Some(Error::DecodeError));
    assert_eq!(outcome.log, Some(b"not UTF-8".to_vec()));
    assert_eq!(outcome.result, Some(b"not UTF-8".to_vec()));
}

#[test]
fn names_may_be_any_text() {
    let mut host = MemoryHost::new();
    let outcome = call(&mut host, EntryPoint::Init, &["zoë", "12", "a very long account name, longer than twenty-four bytes", "0"]);
    assert_eq!(outcome.error, None);
    assert_eq!(answer(&mut host, "zoë"), b"12".to_vec());
    assert_eq!(answer(&mut host, "a very long account name, longer than twenty-four bytes"), b"0".to_vec());
    let outcome = call(&mut host, EntryPoint::Query, &["zoe"]);
    assert_eq!(outcome.error, Some(Error::AccountNotFound(Lookup::Queried)));
}

#[test]
fn refused_debit_leaves_the_ledger_alone() {
    let mut host = alice_and_bob();
    host.refuse_writes_after(0);
    let outcome = call(&mut host, EntryPoint::Invoke, &["alice", "bob", "30"]);
    assert_eq!(outcome.error, Some(Error::StateWriteError(Write::From)));
    assert_eq!(outcome.status(), -1);
    assert_eq!(outcome.log, Some(b"Unable to update from account balance".to_vec()));
    assert_eq!(outcome.result, Some(b"Unable to update from account balance".to_vec()));
    assert_eq!(host.get_balance(&"alice".to_string()), Ok(100));
    assert_eq!(host.get_balance(&"bob".to_string()), Ok(10));
}

#[test]
fn refused_credit_is_reported_and_the_debit_stays() {
    let mut host = alice_and_bob();
    host.refuse_writes_after(1);
    let outcome = call(&mut host, EntryPoint::Invoke, &["alice", "bob", "30"]);
    assert_eq!(outcome.error, Some(Error::StateWriteError(Write::To)));
    assert_eq!(outcome.status(), -1);
    assert_eq!(outcome.log, Some(b"Unable to update to account balance".to_vec()));
    assert_eq!(outcome.result, Some(b"Unable to update to account balance".to_vec()));
    assert_eq!(host.get_balance(&"alice".to_string()), Ok(70));
    assert_eq!(host.get_balance(&"bob".to_string()), Ok(10));
    assert_eq!(total(&host, "alice", "bob"), 80);
}

#[test]
fn host_that_confirms_again_completes_a_transfer() {
    let mut host = alice_and_bob();
    host.refuse_writes_after(0);
    let outcome = call(&mut host, EntryPoint::Invoke, &["alice", "bob", "30"]);
    assert_eq!(outcome.error, Some(Error::StateWriteError(Write::From)));
    host.confirm_all_writes();
    let outcome = call(&mut host, EntryPoint::Invoke, &["alice", "bob", "30"]);
    assert_eq!(outcome.error, None);
    assert_eq!(host.get_balance(&"alice".to_string()), Ok(70));
    assert_eq!(host.get_balance(&"bob".to_string()), Ok(40));
}

#[test]
fn host_counts_the_writes_it_confirms() {
    let mut host = alice_and_bob();
    host.refuse_writes_after(3);
    let outcome = call(&mut host, EntryPoint::Invoke, &["alice", "bob", "30"]);
    assert_eq!(outcome.error, None);
    let outcome = call(&mut host, EntryPoint::Invoke, &["alice", "bob", "30"]);
    assert_eq!(outcome.error, Some(Error::StateWriteError(Write::To)));
    let outcome = call(&mut host, EntryPoint::Invoke, &["alice", "bob", "30"]);
    assert_eq!(outcome.error, Some(Error::StateWriteError(Write::From)));
    assert_eq!(host.get_balance(&"alice".to_string()), Ok(40));
    assert_eq!(host.get_balance(&"bob".to_string()), Ok(40));
    assert_eq!(answer(&mut host, "alice"), b"40".to_vec());
}

#[test]
fn refused_first_insert_stores_nothing() {
    let mut host = MemoryHost::new();
    host.refuse_writes_after(0);
    let outcome = call(&mut host, EntryPoint::Init, &["alice", "100", "bob", "10"]);
    assert_eq!(outcome.error, Some(Error::StateWriteError(Write::First)));
    assert_eq!(outcome.log, Some(b"ERROR! Unable to insert first account to state".to_vec()));
    assert_eq!(outcome.result, Some(b"ERROR! Unable to insert first account to state".to_vec()));
    assert_eq!(host.stored(&"alice".to_string()), None);
    assert_eq!(host.stored(&"bob".to_string()), None);
}

#[test]
fn refused_second_insert_keeps_the_first() {
    let mut host = MemoryHost::new();
    host.refuse_writes_after(1);
    let outcome = call(&mut host, EntryPoint::Init, &["alice", "100", "bob", "10"]);
    assert_eq!(outcome.error, Some(Error::StateWriteError(Write::Second)));
    assert_eq!(outcome.log, Some(b"ERROR! Unable to insert second account to state".to_vec()));
    assert_eq!(outcome.result, Some(b"ERROR! Unable to insert second account to state".to_vec()));
    assert_eq!(host.stored(&"alice".to_string()), Some(b"100".to_vec()));
    assert_eq!(host.stored(&"bob".to_string()), None);
}

#[test]
fn refused_removal_keeps_the_account() {
    let mut host = alice_and_bob();
    host.refuse_writes_after(0);
    let outcome = call(&mut host, EntryPoint::Delete, &["alice"]);
    assert_eq!(outcome.error, Some(Error::StateDeleteError));
    assert_eq!(outcome.status(), -1);
    assert_eq!(outcome.log, Some(b"Failed to delete state".to_vec()));
    assert_eq!(outcome.result, Some(b"Failed to delete state".to_vec()));
    assert_eq!(answer(&mut host, "alice"), b"100".to_vec());
}

#[test]
fn refusing_writes_does_not_touch_reads() {
    let mut host = alice_and_bob();
    host.refuse_writes_after(0);
    assert_eq!(answer(&mut host, "alice"), b"100".to_vec());
    let outcome = call(&mut host, EntryPoint::Invoke, &["alice", "bob", "1000"]);
    assert_eq!(outcome.error, Some(Error::InsufficientFunds));
}

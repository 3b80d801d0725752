//! Transaction handlers for a two-account balance ledger that lives in a host
//! runtime's key-value store.
//!
//! The handlers never touch the host themselves. Each entry point is a small
//! state machine: it names the next host call it needs, is resumed with the
//! host's reply, and finally reports an outcome. Every decision in between
//! (argument counts, text and number validation, the funds check, the two
//! balance updates) is made here, in verified code. One thing is taken on
//! trust: that the standard library decodes UTF-8 as `text` says it does.
//!
//! - `handler`: the entry points `init`, `invoke`, `query` and `delete`, and
//!   the state machine behind them.
//! - `protocol`: requests, replies and outcomes.
//! - `marshal`, `accessor`, `transfer`: how a handler reads parameters, reads
//!   and writes accounts, and computes a transfer.
//! - `decimal`, `text`: balances as decimal digits, names as UTF-8.
//! - `error`: what can go wrong, and the text that says so.
//! - `store`, `host`: a host in memory, to run the handlers against.
//! - `laws`: what holds of every call that such a host runs.

pub mod accessor;
pub mod decimal;
pub mod error;
pub mod handler;
pub mod host;
pub mod laws;
pub mod marshal;
pub mod protocol;
pub mod store;
pub mod text;
pub mod transfer;

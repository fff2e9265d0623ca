//! Data types of the ledger and their mathematical model.
use std::collections::HashMap;
use vstd::prelude::*;

verus! {

/// Amounts are fixed-point integers: this many units make one whole currency unit.
pub const UNITS_PER_WHOLE: i64 = 10000;

/// The `dispute` flag that a resolve writes back into the transaction's status.
/// A resolved transaction stays marked as disputed, so it cannot be disputed again.
pub const DISPUTED_AFTER_RESOLVE: bool = true;

/// State of one client's account. `total` is kept equal to `available + held`.
#[derive(Clone, Copy, Debug)]
pub struct AccountInfo {
    pub available: i64,
    pub held: i64,
    pub total: i64,
    pub locked: bool,
}

/// A settled deposit or withdrawal, kept for later dispute records.
#[derive(Clone, Copy, Debug)]
pub struct TransactionStatus {
    pub amount: i64,
    pub deposit: bool,
    pub dispute: bool,
}

/// Why a record left the ledger untouched.
#[derive(Clone, Copy, Debug, PartialEq, Eq, Structural)]
pub enum Rejection {
    /// The client id or the transaction id is zero.
    InvalidId,
    /// The client's account is locked.
    Locked,
    /// The record's type is none of the five known ones.
    UnknownKind,
    /// The client has no account.
    NoAccount,
    /// The withdrawal would not leave a positive available balance.
    InsufficientFunds,
    /// No settled transaction in the state this record needs.
    NoMatchingTransaction,
    /// A new balance would not fit in an `i64`.
    Overflow,
}

/// What became of one record.
#[derive(Clone, Copy, Debug, PartialEq, Eq, Structural)]
pub enum Outcome {
    Applied,
    Rejected(Rejection),
}

/// The account table as a map from client id.
pub type Accounts = Map<u16, AccountInfo>;

/// The transaction registry as a map from client id to that client's statuses.
pub type Registry = Map<u16, Map<u32, TransactionStatus>>;

/// The whole ledger: account table and transaction registry.
pub type LedgerModel = (Accounts, Registry);

/// The registry with each client's statuses seen as a map.
pub open spec fn reg_view(t: Map<u16, HashMap<u32, TransactionStatus>>) -> Registry {
    Map::new(|c: u16| t.contains_key(c), |c: u16| t[c]@)
}

/// The ledger held in an account table and a registry.
pub open spec fn ledger_view(
    accounts: &HashMap<u16, AccountInfo>,
    transactions: &HashMap<u16, HashMap<u32, TransactionStatus>>,
) -> LedgerModel {
    (accounts@, reg_view(transactions@))
}

/// `x` fits in an `i64`.
pub open spec fn in_i64(x: int) -> bool {
    i64::MIN <= x <= i64::MAX
}

/// Every account's total is its available plus its held funds.
pub open spec fn accounts_balanced(accounts: Accounts) -> bool {
    forall|c: u16| #[trigger]
        accounts.contains_key(c) ==> accounts[c].total == accounts[c].available
            + accounts[c].held
}

/// The statuses recorded for client `c` (none when it has no entry).
pub open spec fn entries(r: Registry, c: u16) -> Map<u32, TransactionStatus> {
    if r.contains_key(c) {
        r[c]
    } else {
        Map::empty()
    }
}

/// The status of transaction `t` of client `c`, if one is recorded.
pub open spec fn registry_lookup(r: Registry, c: u16, t: u32) -> Option<TransactionStatus> {
    if r.contains_key(c) && r[c].contains_key(t) {
        Some(r[c][t])
    } else {
        None
    }
}

/// The registry with status `s` recorded for transaction `t` of client `c`.
pub open spec fn set_entry(r: Registry, c: u16, t: u32, s: TransactionStatus) -> Registry {
    r.insert(c, entries(r, c).insert(t, s))
}

/// Client `c` has an account and it is locked.
pub open spec fn is_locked(accounts: Accounts, c: u16) -> bool {
    accounts.contains_key(c) && accounts[c].locked
}

} // verus!

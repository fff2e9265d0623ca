//! The five transitions that apply a record to the account table and registry.
use crate::lookup::{
    does_deposit_transaction_exist_with_dispute, does_transaction_exist_with_dispute,
    does_transaction_exist_without_dispute, lookup_status,
};
use crate::model::{
    entries, in_i64, ledger_view, reg_view, registry_lookup, set_entry, AccountInfo, LedgerModel,
    Outcome, Rejection, TransactionStatus, DISPUTED_AFTER_RESOLVE,
};
use std::collections::HashMap;
use vstd::prelude::*;

verus! {

/// How a deposit ends: refused only when a new balance would not fit.
pub open spec fn deposit_outcome(s: LedgerModel, c: u16, amount: i64) -> Outcome {
    if s.0.contains_key(c) && !(in_i64(s.0[c].available + amount) && in_i64(
        s.0[c].total + amount,
    )) {
        Outcome::Rejected(Rejection::Overflow)
    } else {
        Outcome::Applied
    }
}

/// The ledger after a deposit: the amount is added to available and total (a new
/// account starts with it), and the deposit is recorded as undisputed.
pub open spec fn after_deposit(s: LedgerModel, c: u16, t: u32, amount: i64) -> LedgerModel {
    if deposit_outcome(s, c, amount) == Outcome::Applied {
        let account = if s.0.contains_key(c) {
            AccountInfo {
                available: (s.0[c].available + amount) as i64,
                held: s.0[c].held,
                total: (s.0[c].total + amount) as i64,
                locked: false,
            }
        } else {
            AccountInfo { available: amount, held: 0, total: amount, locked: false }
        };
        (
            s.0.insert(c, account),
            set_entry(s.1, c, t, TransactionStatus { amount, deposit: true, dispute: false }),
        )
    } else {
        s
    }
}

/// How a withdrawal ends: it needs an account and a positive available balance left.
pub open spec fn withdrawal_outcome(s: LedgerModel, c: u16, amount: i64) -> Outcome {
    if !s.0.contains_key(c) {
        Outcome::Rejected(Rejection::NoAccount)
    } else if s.0[c].available - amount <= 0 {
        Outcome::Rejected(Rejection::InsufficientFunds)
    } else if !(in_i64(s.0[c].available - amount) && in_i64(s.0[c].total - amount)) {
        Outcome::Rejected(Rejection::Overflow)
    } else {
        Outcome::Applied
    }
}

/// The ledger after a withdrawal: the amount leaves available and total, and the
/// withdrawal is recorded as undisputed.
pub open spec fn after_withdrawal(s: LedgerModel, c: u16, t: u32, amount: i64) -> LedgerModel {
    if withdrawal_outcome(s, c, amount) == Outcome::Applied {
        (
            s.0.insert(
                c,
                AccountInfo {
                    available: (s.0[c].available - amount) as i64,
                    held: s.0[c].held,
                    total: (s.0[c].total - amount) as i64,
                    locked: false,
                },
            ),
            set_entry(s.1, c, t, TransactionStatus { amount, deposit: false, dispute: false }),
        )
    } else {
        s
    }
}

/// How a dispute ends: it needs a recorded transaction that is not disputed.
pub open spec fn dispute_outcome(s: LedgerModel, c: u16, t: u32) -> Outcome {
    let e = registry_lookup(s.1, c, t);
    if !(e matches Some(st) && !st.dispute) {
        Outcome::Rejected(Rejection::NoMatchingTransaction)
    } else if !s.0.contains_key(c) {
        Outcome::Rejected(Rejection::NoAccount)
    } else if !(in_i64(s.0[c].available - e->0.amount) && in_i64(s.0[c].held + e->0.amount)) {
        Outcome::Rejected(Rejection::Overflow)
    } else {
        Outcome::Applied
    }
}

/// The ledger after a dispute: the amount moves from available to held and the
/// transaction is marked disputed.
pub open spec fn after_dispute(s: LedgerModel, c: u16, t: u32) -> LedgerModel {
    if dispute_outcome(s, c, t) == Outcome::Applied {
        let st = s.1[c][t];
        (
            s.0.insert(
                c,
                AccountInfo {
                    available: (s.0[c].available - st.amount) as i64,
                    held: (s.0[c].held + st.amount) as i64,
                    total: s.0[c].total,
                    locked: false,
                },
            ),
            set_entry(
                s.1,
                c,
                t,
                TransactionStatus { amount: st.amount, deposit: st.deposit, dispute: true },
            ),
        )
    } else {
        s
    }
}

/// How a resolve ends: it needs a recorded transaction that is disputed.
pub open spec fn resolve_outcome(s: LedgerModel, c: u16, t: u32) -> Outcome {
    let e = registry_lookup(s.1, c, t);
    if !(e matches Some(st) && st.dispute) {
        Outcome::Rejected(Rejection::NoMatchingTransaction)
    } else if !s.0.contains_key(c) {
        Outcome::Rejected(Rejection::NoAccount)
    } else if !(in_i64(s.0[c].available + e->0.amount) && in_i64(s.0[c].held - e->0.amount)) {
        Outcome::Rejected(Rejection::Overflow)
    } else {
        Outcome::Applied
    }
}

/// The ledger after a resolve: the amount moves from held back to available.
pub open spec fn after_resolve(s: LedgerModel, c: u16, t: u32) -> LedgerModel {
    if resolve_outcome(s, c, t) == Outcome::Applied {
        let st = s.1[c][t];
        (
            s.0.insert(
                c,
                AccountInfo {
                    available: (s.0[c].available + st.amount) as i64,
                    held: (s.0[c].held - st.amount) as i64,
                    total: s.0[c].total,
                    locked: false,
                },
            ),
            set_entry(
                s.1,
                c,
                t,
                TransactionStatus {
                    amount: st.amount,
                    deposit: st.deposit,
                    dispute: DISPUTED_AFTER_RESOLVE,
                },
            ),
        )
    } else {
        s
    }
}

/// How a chargeback ends: it needs a recorded deposit that is disputed.
pub open spec fn chargeback_outcome(s: LedgerModel, c: u16, t: u32) -> Outcome {
    let e = registry_lookup(s.1, c, t);
    if !(e matches Some(st) && st.dispute && st.deposit) {
        Outcome::Rejected(Rejection::NoMatchingTransaction)
    } else if !s.0.contains_key(c) {
        Outcome::Rejected(Rejection::NoAccount)
    } else if !(in_i64(s.0[c].held - e->0.amount) && in_i64(s.0[c].total - e->0.amount)) {
        Outcome::Rejected(Rejection::Overflow)
    } else {
        Outcome::Applied
    }
}

/// The ledger after a chargeback: the amount leaves held and total, the account
/// is locked, and the client's registry is dropped.
pub open spec fn after_chargeback(s: LedgerModel, c: u16, t: u32) -> LedgerModel {
    if chargeback_outcome(s, c, t) == Outcome::Applied {
        let st = s.1[c][t];
        (
            s.0.insert(
                c,
                AccountInfo {
                    available: s.0[c].available,
                    held: (s.0[c].held - st.amount) as i64,
                    total: (s.0[c].total - st.amount) as i64,
                    locked: true,
                },
            ),
            s.1.remove(c),
        )
    } else {
        s
    }
}

fn fits_i64(x: i128) -> (r: bool)
    ensures
        r == in_i64(x as int),
{
    i64::MIN as i128 <= x && x <= i64::MAX as i128
}

/// Records status `status` for transaction `trans_id` of `client`.
fn record_status(
    transactions: &mut HashMap<u16, HashMap<u32, TransactionStatus>>,
    client: u16,
    trans_id: u32,
    status: TransactionStatus,
)
    ensures
        reg_view(final(transactions)@) == set_entry(
            reg_view(old(transactions)@),
            client,
            trans_id,
            status,
        ),
{
    let ghost before = reg_view(transactions@);
    let mut statuses = match transactions.remove(&client) {
        Some(m) => m,
        None => HashMap::new(),
    };
    assert(statuses@ == entries(before, client));
    statuses.insert(trans_id, status);
    transactions.insert(client, statuses);
    assert(reg_view(transactions@) =~= set_entry(before, client, trans_id, status));
}

/// Adds `amount` to the client's balance, opening the account if it has none,
/// and records the deposit for later disputes.
pub fn handle_deposit(
    accounts: &mut HashMap<u16, AccountInfo>,
    transactions: &mut HashMap<u16, HashMap<u32, TransactionStatus>>,
    amount: i64,
    client: &u16,
    trans_id: u32,
) -> (r: Outcome)
    ensures
        r == deposit_outcome(ledger_view(old(accounts), old(transactions)), *client, amount),
        ledger_view(final(accounts), final(transactions)) == after_deposit(
            ledger_view(old(accounts), old(transactions)),
            *client,
            trans_id,
            amount,
        ),
{
    let account = match accounts.get(client) {
        None => AccountInfo { available: amount, held: 0, total: amount, locked: false },
        Some(current) => {
            let available = current.available as i128 + amount as i128;
            let total = current.total as i128 + amount as i128;
            if !fits_i64(available) || !fits_i64(total) {
                return Outcome::Rejected(Rejection::Overflow);
            }
            AccountInfo {
                available: available as i64,
                held: current.held,
                total: total as i64,
                locked: false,
            }
        },
    };
    accounts.insert(*client, account);
    record_status(
        transactions,
        *client,
        trans_id,
        TransactionStatus { amount, deposit: true, dispute: false },
    );
    Outcome::Applied
}

/// Takes `amount` from the client's available funds when that leaves a
/// positive balance, and records the withdrawal for later disputes.
pub fn handle_withdrawal(
    accounts: &mut HashMap<u16, AccountInfo>,
    transactions: &mut HashMap<u16, HashMap<u32, TransactionStatus>>,
    amount: i64,
    client: &u16,
    trans_id: u32,
) -> (r: Outcome)
    ensures
        r == withdrawal_outcome(ledger_view(old(accounts), old(transactions)), *client, amount),
        ledger_view(final(accounts), final(transactions)) == after_withdrawal(
            ledger_view(old(accounts), old(transactions)),
            *client,
            trans_id,
            amount,
        ),
{
    let current = match accounts.get(client) {
        None => return Outcome::Rejected(Rejection::NoAccount),
        Some(current) => *current,
    };
    let available = current.available as i128 - amount as i128;
    let total = current.total as i128 - amount as i128;
    if available <= 0 {
        return Outcome::Rejected(Rejection::InsufficientFunds);
    }
    if !fits_i64(available) || !fits_i64(total) {
        return Outcome::Rejected(Rejection::Overflow);
    }
    accounts.insert(
        *client,
        AccountInfo {
            available: available as i64,
            held: current.held,
            total: total as i64,
            locked: false,
        },
    );
    record_status(
        transactions,
        *client,
        trans_id,
        TransactionStatus { amount, deposit: false, dispute: false },
    );
    Outcome::Applied
}

/// Moves the amount of an undisputed transaction from available to held and
/// marks the transaction disputed.
pub fn handle_dispute(
    accounts: &mut HashMap<u16, AccountInfo>,
    transactions: &mut HashMap<u16, HashMap<u32, TransactionStatus>>,
    client: &u16,
    trans_id: &u32,
) -> (r: Outcome)
    ensures
        r == dispute_outcome(ledger_view(old(accounts), old(transactions)), *client, *trans_id),
        ledger_view(final(accounts), final(transactions)) == after_dispute(
            ledger_view(old(accounts), old(transactions)),
            *client,
            *trans_id,
        ),
{
    if !does_transaction_exist_without_dispute(trans_id, transactions.get(client)) {
        return Outcome::Rejected(Rejection::NoMatchingTransaction);
    }
    let status = match lookup_status(transactions, client, trans_id) {
        Some(s) => s,
        None => return Outcome::Rejected(Rejection::NoMatchingTransaction),
    };
    let current = match accounts.get(client) {
        None => return Outcome::Rejected(Rejection::NoAccount),
        Some(current) => *current,
    };
    let available = current.available as i128 - status.amount as i128;
    let held = current.held as i128 + status.amount as i128;
    if !fits_i64(available) || !fits_i64(held) {
        return Outcome::Rejected(Rejection::Overflow);
    }
    accounts.insert(
        *client,
        AccountInfo {
            available: available as i64,
            held: held as i64,
            total: current.total,
            locked: false,
        },
    );
    record_status(
        transactions,
        *client,
        *trans_id,
        TransactionStatus { amount: status.amount, deposit: status.deposit, dispute: true },
    );
    Outcome::Applied
}

/// Moves the amount of a disputed transaction from held back to available.
pub fn handle_resolve(
    accounts: &mut HashMap<u16, AccountInfo>,
    transactions: &mut HashMap<u16, HashMap<u32, TransactionStatus>>,
    client: &u16,
    trans_id: &u32,
) -> (r: Outcome)
    ensures
        r == resolve_outcome(ledger_view(old(accounts), old(transactions)), *client, *trans_id),
        ledger_view(final(accounts), final(transactions)) == after_resolve(
            ledger_view(old(accounts), old(transactions)),
            *client,
            *trans_id,
        ),
{
    if !does_transaction_exist_with_dispute(trans_id, transactions.get(client)) {
        return Outcome::Rejected(Rejection::NoMatchingTransaction);
    }
    let status = match lookup_status(transactions, client, trans_id) {
        Some(s) => s,
        None => return Outcome::Rejected(Rejection::NoMatchingTransaction),
    };
    let current = match accounts.get(client) {
        None => return Outcome::Rejected(Rejection::NoAccount),
        Some(current) => *current,
    };
    let available = current.available as i128 + status.amount as i128;
    let held = current.held as i128 - status.amount as i128;
    if !fits_i64(available) || !fits_i64(held) {
        return Outcome::Rejected(Rejection::Overflow);
    }
    accounts.insert(
        *client,
        AccountInfo {
            available: available as i64,
            held: held as i64,
            total: current.total,
            locked: false,
        },
    );
    record_status(
        transactions,
        *client,
        *trans_id,
        TransactionStatus {
            amount: status.amount,
            deposit: status.deposit,
            dispute: DISPUTED_AFTER_RESOLVE,
        },
    );
    Outcome::Applied
}

/// Reverses a disputed deposit: its amount leaves held and total, the account
/// is locked for good, and the client's registry is dropped.
pub fn handle_chargeback(
    accounts: &mut HashMap<u16, AccountInfo>,
    transactions: &mut HashMap<u16, HashMap<u32, TransactionStatus>>,
    client: &u16,
    trans_id: &u32,
) -> (r: Outcome)
    ensures
        r == chargeback_outcome(
            ledger_view(old(accounts), old(transactions)),
            *client,
            *trans_id,
        ),
        ledger_view(final(accounts), final(transactions)) == after_chargeback(
            ledger_view(old(accounts), old(transactions)),
            *client,
            *trans_id,
        ),
{
    if !does_deposit_transaction_exist_with_dispute(trans_id, transactions.get(client)) {
        return Outcome::Rejected(Rejection::NoMatchingTransaction);
    }
    let status = match lookup_status(transactions, client, trans_id) {
        Some(s) => s,
        None => return Outcome::Rejected(Rejection::NoMatchingTransaction),
    };
    let current = match accounts.get(client) {
        None => return Outcome::Rejected(Rejection::NoAccount),
        Some(current) => *current,
    };
    let held = current.held as i128 - status.amount as i128;
    let total = current.total as i128 - status.amount as i128;
    if !fits_i64(held) || !fits_i64(total) {
        return Outcome::Rejected(Rejection::Overflow);
    }
    accounts.insert(
        *client,
        AccountInfo {
            available: current.available,
            held: held as i64,
            total: total as i64,
            locked: true,
        },
    );
    let ghost before = reg_view(transactions@);
    transactions.remove(client);
    assert(reg_view(transactions@) =~= before.remove(*client));
    Outcome::Applied
}

} // verus!

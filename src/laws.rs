//! Properties of the ledger that hold for every input, proved over the model.
use crate::ledger::{
    after_chargeback, after_dispute, after_withdrawal, chargeback_outcome, dispute_outcome,
    withdrawal_outcome,
};
use crate::model::{
    accounts_balanced, entries, in_i64, is_locked, registry_lookup, AccountInfo, LedgerModel,
    Outcome, Rejection,
};
use crate::record::{after_record, after_records, record_outcome, Transaction, TransactionType};
use vstd::prelude::*;

verus! {

/// One record keeps every account's total equal to its available plus held funds.
pub proof fn lemma_record_keeps_balance(s: LedgerModel, rec: Transaction)
    requires
        accounts_balanced(s.0),
    ensures
        accounts_balanced(after_record(s, rec).0),
{
    let n = after_record(s, rec).0;
    assert forall|c: u16| #[trigger] n.contains_key(c) implies n[c].total == n[c].available
        + n[c].held by {
        if c != rec.client {
            assert(s.0.contains_key(c));
        } else if s.0.contains_key(c) {
            assert(s.0[c].total == s.0[c].available + s.0[c].held);
        }
    }
}

/// Any sequence of records keeps every account's total equal to its available
/// plus held funds.
pub proof fn lemma_records_keep_balance(s: LedgerModel, recs: Seq<Transaction>)
    requires
        accounts_balanced(s.0),
    ensures
        accounts_balanced(after_records(s, recs).0),
    decreases recs.len(),
{
    if recs.len() > 0 {
        lemma_record_keeps_balance(s, recs[0]);
        lemma_records_keep_balance(after_record(s, recs[0]), recs.drop_first());
    }
}

/// Starting from an empty ledger, every account's total equals its available
/// plus held funds after any sequence of records.
pub proof fn lemma_balance_from_empty(recs: Seq<Transaction>)
    ensures
        accounts_balanced(after_records((Map::empty(), Map::empty()), recs).0),
{
    lemma_records_keep_balance((Map::empty(), Map::empty()), recs);
}

/// A record leaves the account and the registry of every other client as they were.
pub proof fn lemma_record_touches_own_client(s: LedgerModel, rec: Transaction, c: u16)
    requires
        c != rec.client,
    ensures
        after_record(s, rec).0.contains_key(c) == s.0.contains_key(c),
        after_record(s, rec).0[c] == s.0[c],
        after_record(s, rec).1.contains_key(c) == s.1.contains_key(c),
        entries(after_record(s, rec).1, c) == entries(s.1, c),
{
}

/// A locked client's account and registry stay as they are, whatever records follow.
pub proof fn lemma_locked_client_frozen(s: LedgerModel, recs: Seq<Transaction>, c: u16)
    requires
        is_locked(s.0, c),
    ensures
        after_records(s, recs).0.contains_key(c),
        after_records(s, recs).0[c] == s.0[c],
        after_records(s, recs).1.contains_key(c) == s.1.contains_key(c),
        entries(after_records(s, recs).1, c) == entries(s.1, c),
    decreases recs.len(),
{
    if recs.len() > 0 {
        let next = after_record(s, recs[0]);
        if recs[0].client != c {
            lemma_record_touches_own_client(s, recs[0], c);
        }
        assert(is_locked(next.0, c));
        lemma_locked_client_frozen(next, recs.drop_first(), c);
    }
}

/// A deposit with valid ids for a client without an account opens it with
/// the deposited amount available and nothing held.
pub proof fn lemma_deposit_opens_account(s: LedgerModel, rec: Transaction)
    requires
        rec.kind == Some(TransactionType::Deposit),
        rec.client != 0,
        rec.id != 0,
        !s.0.contains_key(rec.client),
    ensures
        record_outcome(s, rec) == Outcome::Applied,
        after_record(s, rec).0[rec.client] == (AccountInfo {
            available: rec.amount,
            held: 0,
            total: rec.amount,
            locked: false,
        }),
{
}

/// A withdrawal from an existing account goes through exactly when it leaves a
/// positive available balance; it then takes the amount from available and
/// total, and otherwise changes nothing.
pub proof fn lemma_withdrawal(s: LedgerModel, c: u16, t: u32, amount: i64)
    requires
        s.0.contains_key(c),
        s.0[c].available - amount > 0 ==> in_i64(s.0[c].available - amount) && in_i64(
            s.0[c].total - amount,
        ),
    ensures
        (withdrawal_outcome(s, c, amount) == Outcome::Applied) == (s.0[c].available - amount
            > 0),
        withdrawal_outcome(s, c, amount) == Outcome::Applied ==> {
            let a = after_withdrawal(s, c, t, amount).0[c];
            &&& a.available == s.0[c].available - amount
            &&& a.total == s.0[c].total - amount
            &&& a.held == s.0[c].held
        },
        withdrawal_outcome(s, c, amount) != Outcome::Applied ==> after_withdrawal(
            s,
            c,
            t,
            amount,
        ) == s,
{
}

/// A dispute on a settled, undisputed transaction moves its amount from
/// available to held and leaves the total as it was.
pub proof fn lemma_dispute_moves_amount(s: LedgerModel, c: u16, t: u32)
    requires
        registry_lookup(s.1, c, t) matches Some(st) && !st.dispute,
        s.0.contains_key(c),
        in_i64(s.0[c].available - s.1[c][t].amount),
        in_i64(s.0[c].held + s.1[c][t].amount),
    ensures
        dispute_outcome(s, c, t) == Outcome::Applied,
        after_dispute(s, c, t).0[c].available == s.0[c].available - s.1[c][t].amount,
        after_dispute(s, c, t).0[c].held == s.0[c].held + s.1[c][t].amount,
        after_dispute(s, c, t).0[c].total == s.0[c].total,
{
}

/// Disputing the same transaction a second time changes nothing, and the
/// second dispute is refused when the first went through.
pub proof fn lemma_dispute_twice(s: LedgerModel, c: u16, t: u32)
    ensures
        after_dispute(after_dispute(s, c, t), c, t) == after_dispute(s, c, t),
        dispute_outcome(s, c, t) == Outcome::Applied ==> dispute_outcome(
            after_dispute(s, c, t),
            c,
            t,
        ) == Outcome::Rejected(Rejection::NoMatchingTransaction),
{
    if dispute_outcome(s, c, t) == Outcome::Applied {
        let n = after_dispute(s, c, t);
        assert(n.1[c][t].dispute);
    }
}

/// A chargeback on a disputed deposit takes its amount out of held, leaves
/// available as it was, and locks the account.
pub proof fn lemma_chargeback_locks(s: LedgerModel, c: u16, t: u32)
    requires
        registry_lookup(s.1, c, t) matches Some(st) && st.dispute && st.deposit,
        s.0.contains_key(c),
        in_i64(s.0[c].held - s.1[c][t].amount),
        in_i64(s.0[c].total - s.1[c][t].amount),
    ensures
        chargeback_outcome(s, c, t) == Outcome::Applied,
        after_chargeback(s, c, t).0[c].held == s.0[c].held - s.1[c][t].amount,
        after_chargeback(s, c, t).0[c].available == s.0[c].available,
        after_chargeback(s, c, t).0[c].locked,
{
}

/// After a chargeback, a second chargeback on the same client, for any
/// transaction, is refused and changes nothing: the client's registry is gone.
pub proof fn lemma_chargeback_twice(s: LedgerModel, c: u16, t: u32, t2: u32)
    requires
        chargeback_outcome(s, c, t) == Outcome::Applied,
    ensures
        !after_chargeback(s, c, t).1.contains_key(c),
        chargeback_outcome(after_chargeback(s, c, t), c, t2) == Outcome::Rejected(
            Rejection::NoMatchingTransaction,
        ),
        after_chargeback(after_chargeback(s, c, t), c, t2) == after_chargeback(s, c, t),
{
}

} // verus!

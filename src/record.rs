//! Incoming records: their type, validation and dispatch to the transitions.
use crate::ledger::{
    after_chargeback, after_deposit, after_dispute, after_resolve, after_withdrawal,
    chargeback_outcome, deposit_outcome, dispute_outcome, handle_chargeback, handle_deposit,
    handle_dispute, handle_resolve, handle_withdrawal, resolve_outcome, withdrawal_outcome,
};
use crate::lookup::is_client_locked;
use crate::model::{
    is_locked, ledger_view, AccountInfo, LedgerModel, Outcome, Rejection, TransactionStatus,
};
use std::collections::HashMap;
use vstd::prelude::*;

verus! {

/// The five kinds of record.
#[derive(Clone, Copy, Debug, PartialEq, Eq, Structural)]
pub enum TransactionType {
    Deposit,
    Withdrawal,
    Dispute,
    Resolve,
    Chargeback,
}

/// One record of the input stream. `kind` is `None` for a type name that is
/// none of the five; `amount` matters for deposits and withdrawals only.
#[derive(Clone, Copy, Debug)]
pub struct Transaction {
    pub kind: Option<TransactionType>,
    pub client: u16,
    pub id: u32,
    pub amount: i64,
}

/// What `str::to_lowercase` returns for the characters `s`.
pub uninterp spec fn lower_of(s: Seq<char>) -> Seq<char>;

/// Relies on `str::to_lowercase`: the lowercase form, a function of the
/// characters alone.
#[verifier::external_body]
fn lowercase(s: &str) -> (r: String)
    ensures
        r@ == lower_of(s@),
{
    s.to_lowercase()
}

/// The kind that a lowercase type name stands for.
pub open spec fn kind_named(name: Seq<char>) -> Option<TransactionType> {
    if name == "deposit"@ {
        Some(TransactionType::Deposit)
    } else if name == "withdrawal"@ {
        Some(TransactionType::Withdrawal)
    } else if name == "dispute"@ {
        Some(TransactionType::Dispute)
    } else if name == "resolve"@ {
        Some(TransactionType::Resolve)
    } else if name == "chargeback"@ {
        Some(TransactionType::Chargeback)
    } else {
        None
    }
}

/// The kind named by an already lowercased type name.
pub fn transaction_type_of_lowercase(name: &str) -> (r: Option<TransactionType>)
    ensures
        r == kind_named(name@),
{
    let name = name.to_owned();
    if name == "deposit".to_owned() {
        Some(TransactionType::Deposit)
    } else if name == "withdrawal".to_owned() {
        Some(TransactionType::Withdrawal)
    } else if name == "dispute".to_owned() {
        Some(TransactionType::Dispute)
    } else if name == "resolve".to_owned() {
        Some(TransactionType::Resolve)
    } else if name == "chargeback".to_owned() {
        Some(TransactionType::Chargeback)
    } else {
        None
    }
}

/// The kind named by a type name, in any letter case.
pub fn transaction_type_of(name: &str) -> (r: Option<TransactionType>)
    ensures
        r == kind_named(lower_of(name@)),
{
    let lowered = lowercase(name);
    transaction_type_of_lowercase(lowered.as_str())
}

/// The outcome of a record: zero ids and locked accounts are refused before
/// the record's kind picks a transition.
pub open spec fn record_outcome(s: LedgerModel, rec: Transaction) -> Outcome {
    if rec.client == 0 || rec.id == 0 {
        Outcome::Rejected(Rejection::InvalidId)
    } else if is_locked(s.0, rec.client) {
        Outcome::Rejected(Rejection::Locked)
    } else {
        match rec.kind {
            Some(TransactionType::Deposit) => deposit_outcome(s, rec.client, rec.amount),
            Some(TransactionType::Withdrawal) => withdrawal_outcome(s, rec.client, rec.amount),
            Some(TransactionType::Dispute) => dispute_outcome(s, rec.client, rec.id),
            Some(TransactionType::Resolve) => resolve_outcome(s, rec.client, rec.id),
            Some(TransactionType::Chargeback) => chargeback_outcome(s, rec.client, rec.id),
            None => Outcome::Rejected(Rejection::UnknownKind),
        }
    }
}

/// The ledger after one record.
pub open spec fn after_record(s: LedgerModel, rec: Transaction) -> LedgerModel {
    if rec.client == 0 || rec.id == 0 || is_locked(s.0, rec.client) {
        s
    } else {
        match rec.kind {
            Some(TransactionType::Deposit) => after_deposit(s, rec.client, rec.id, rec.amount),
            Some(TransactionType::Withdrawal) => after_withdrawal(
                s,
                rec.client,
                rec.id,
                rec.amount,
            ),
            Some(TransactionType::Dispute) => after_dispute(s, rec.client, rec.id),
            Some(TransactionType::Resolve) => after_resolve(s, rec.client, rec.id),
            Some(TransactionType::Chargeback) => after_chargeback(s, rec.client, rec.id),
            None => s,
        }
    }
}

/// The ledger after a sequence of records, applied in order.
pub open spec fn after_records(s: LedgerModel, recs: Seq<Transaction>) -> LedgerModel
    decreases recs.len(),
{
    if recs.len() == 0 {
        s
    } else {
        after_records(after_record(s, recs[0]), recs.drop_first())
    }
}

/// Applies one record to the ledger.
pub fn handle_record(
    accounts: &mut HashMap<u16, AccountInfo>,
    transactions: &mut HashMap<u16, HashMap<u32, TransactionStatus>>,
    transaction: &Transaction,
) -> (r: Outcome)
    ensures
        r == record_outcome(ledger_view(old(accounts), old(transactions)), *transaction),
        ledger_view(final(accounts), final(transactions)) == after_record(
            ledger_view(old(accounts), old(transactions)),
            *transaction,
        ),
{
    let client = transaction.client;
    let trans_id = transaction.id;
    if client == 0 || trans_id == 0 {
        return Outcome::Rejected(Rejection::InvalidId);
    }
    if is_client_locked(accounts.get(&client)) {
        return Outcome::Rejected(Rejection::Locked);
    }
    match transaction.kind {
        Some(TransactionType::Deposit) => handle_deposit(
            accounts,
            transactions,
            transaction.amount,
            &client,
            trans_id,
        ),
        Some(TransactionType::Withdrawal) => handle_withdrawal(
            accounts,
            transactions,
            transaction.amount,
            &client,
            trans_id,
        ),
        Some(TransactionType::Dispute) => handle_dispute(
            accounts,
            transactions,
            &client,
            &trans_id,
        ),
        Some(TransactionType::Resolve) => handle_resolve(
            accounts,
            transactions,
            &client,
            &trans_id,
        ),
        Some(TransactionType::Chargeback) => handle_chargeback(
            accounts,
            transactions,
            &client,
            &trans_id,
        ),
        None => Outcome::Rejected(Rejection::UnknownKind),
    }
}

} // verus!

//! Lookup predicates over the account table and the transaction registry.
use crate::model::{reg_view, registry_lookup, AccountInfo, TransactionStatus};
use std::collections::HashMap;
use vstd::prelude::*;

verus! {

/// True when the client's registry holds transaction `trans_id`.
pub fn does_transaction_exist(
    trans_id: &u32,
    trans_status: Option<&HashMap<u32, TransactionStatus>>,
) -> (r: bool)
    ensures
        r == (trans_status matches Some(m) && m@.contains_key(*trans_id)),
{
    match trans_status {
        Some(m) => m.contains_key(trans_id),
        None => false,
    }
}

/// True when transaction `trans_id` is recorded and not under dispute.
pub fn does_transaction_exist_without_dispute(
    trans_id: &u32,
    trans_status: Option<&HashMap<u32, TransactionStatus>>,
) -> (r: bool)
    ensures
        r == (trans_status matches Some(m) && m@.contains_key(*trans_id)
            && !m@[*trans_id].dispute),
{
    match trans_status {
        Some(m) => match m.get(trans_id) {
            Some(s) => !s.dispute,
            None => false,
        },
        None => false,
    }
}

/// True when transaction `trans_id` is recorded and marked disputed.
pub fn does_transaction_exist_with_dispute(
    trans_id: &u32,
    trans_status: Option<&HashMap<u32, TransactionStatus>>,
) -> (r: bool)
    ensures
        r == (trans_status matches Some(m) && m@.contains_key(*trans_id)
            && m@[*trans_id].dispute),
{
    match trans_status {
        Some(m) => match m.get(trans_id) {
            Some(s) => s.dispute,
            None => false,
        },
        None => false,
    }
}

/// True when transaction `trans_id` is a recorded deposit marked disputed.
pub fn does_deposit_transaction_exist_with_dispute(
    trans_id: &u32,
    trans_status: Option<&HashMap<u32, TransactionStatus>>,
) -> (r: bool)
    ensures
        r == (trans_status matches Some(m) && m@.contains_key(*trans_id)
            && m@[*trans_id].dispute && m@[*trans_id].deposit),
{
    does_transaction_exist_with_dispute(trans_id, trans_status) && match trans_status {
        Some(m) => match m.get(trans_id) {
            Some(s) => s.deposit,
            None => false,
        },
        None => false,
    }
}

/// True when the account exists and is locked.
pub fn is_client_locked(account: Option<&AccountInfo>) -> (r: bool)
    ensures
        r == (account matches Some(a) && a.locked),
{
    match account {
        Some(a) => a.locked,
        None => false,
    }
}

/// The status recorded for transaction `trans_id` of `client`, if any.
pub fn lookup_status(
    transactions: &HashMap<u16, HashMap<u32, TransactionStatus>>,
    client: &u16,
    trans_id: &u32,
) -> (r: Option<TransactionStatus>)
    ensures
        r == registry_lookup(reg_view(transactions@), *client, *trans_id),
{
    match transactions.get(client) {
        Some(m) => match m.get(trans_id) {
            Some(s) => Some(*s),
            None => None,
        },
        None => None,
    }
}

} // verus!

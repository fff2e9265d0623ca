use oxidized_transactions::ledger::{handle_deposit, handle_withdrawal};
use oxidized_transactions::lookup::{
    does_deposit_transaction_exist_with_dispute, does_transaction_exist,
    does_transaction_exist_with_dispute, does_transaction_exist_without_dispute, is_client_locked,
};
use oxidized_transactions::model::{AccountInfo, TransactionStatus, UNITS_PER_WHOLE};
use std::collections::HashMap;

#[test]
fn test_handle_withdrawal_with_new_account() {
    let client: u16 = 1;
    let trans_id: u32 = 1;
    let amount: i64 = 1 * UNITS_PER_WHOLE;

    let mut accounts: HashMap<u16, AccountInfo> = HashMap::new();
    let mut transactions: HashMap<u16, HashMap<u32, TransactionStatus>> = HashMap::new();

    handle_withdrawal(&mut accounts, &mut transactions, amount, &client, trans_id);

    let trans_status = transactions.get(&client);
    assert_eq!(trans_status.is_none(), true);

    let account_info = accounts.get(&client);
    assert_eq!(account_info.is_none(), true)
}

// A withdrawal that would leave exactly zero available is refused: the
// available balance must stay positive.
#[test]
fn test_handle_withdrawal_with_existing_account() {
    let client: u16 = 1;
    let deposit_trans_id: u32 = 1;
    let withdrawal_trans_id: u32 = 2;
    let amount: i64 = 1 * UNITS_PER_WHOLE;

    let mut accounts: HashMap<u16, AccountInfo> = HashMap::new();
    let mut transactions: HashMap<u16, HashMap<u32, TransactionStatus>> = HashMap::new();

    let expected_account_info = AccountInfo {
        available: 1 * UNITS_PER_WHOLE,
        held: 0,
        total: 1 * UNITS_PER_WHOLE,
        locked: false,
    };
    handle_deposit(&mut accounts, &mut transactions, amount, &client, deposit_trans_id);
    handle_withdrawal(&mut accounts, &mut transactions, amount, &client, withdrawal_trans_id);

    let actual_trans_status = transactions.get(&client).unwrap().get(&withdrawal_trans_id);
    assert_eq!(actual_trans_status.is_none(), true);

    let actual_account_info = accounts.get(&client).unwrap();
    assert_eq!(expected_account_info.available, actual_account_info.available);
    assert_eq!(expected_account_info.held, actual_account_info.held);
    assert_eq!(expected_account_info.total, actual_account_info.total);
    assert_eq!(expected_account_info.locked, actual_account_info.locked);
}

#[test]
fn test_handle_withdrawal_with_existing_account_insufficient_funds() {
    let client: u16 = 1;
    let deposit_trans_id: u32 = 1;
    let withdrawal_trans_id: u32 = 2;
    let withdrawal_amount: i64 = 2 * UNITS_PER_WHOLE;
    let amount: i64 = 1 * UNITS_PER_WHOLE;

    let mut accounts: HashMap<u16, AccountInfo> = HashMap::new();
    let mut transactions: HashMap<u16, HashMap<u32, TransactionStatus>> = HashMap::new();

    let expected_account_info = AccountInfo {
        available: 1 * UNITS_PER_WHOLE,
        held: 0,
        total: 1 * UNITS_PER_WHOLE,
        locked: false,
    };

    handle_deposit(&mut accounts, &mut transactions, amount, &client, deposit_trans_id);
    handle_withdrawal(&mut accounts, &mut transactions, withdrawal_amount, &client, withdrawal_trans_id);

    let actual_trans_status = transactions.get(&client).unwrap().get(&withdrawal_trans_id);
    assert_eq!(actual_trans_status.is_none(), true);

    let actual_account_info = accounts.get(&client).unwrap();
    assert_eq!(expected_account_info.available, actual_account_info.available);
    assert_eq!(expected_account_info.held, actual_account_info.held);
    assert_eq!(expected_account_info.total, actual_account_info.total);
    assert_eq!(expected_account_info.locked, actual_account_info.locked);
}

#[test]
fn test_handle_deposit_with_new_account() {
    let client: u16 = 1;
    let trans_id: u32 = 1;
    let amount: i64 = 1 * UNITS_PER_WHOLE;

    let mut accounts: HashMap<u16, AccountInfo> = HashMap::new();
    let mut transactions: HashMap<u16, HashMap<u32, TransactionStatus>> = HashMap::new();

    let expected_trans_status = TransactionStatus {
        amount: 1 * UNITS_PER_WHOLE,
        deposit: true,
        dispute: false,
    };

    let expected_account_info = AccountInfo {
        available: 1 * UNITS_PER_WHOLE,
        held: 0,
        total: 1 * UNITS_PER_WHOLE,
        locked: false,
    };

    handle_deposit(&mut accounts, &mut transactions, amount, &client, trans_id);

    let actual_trans_status = transactions.get(&client).unwrap().get(&trans_id).unwrap();
    assert_eq!(expected_trans_status.amount, actual_trans_status.amount);
    assert_eq!(expected_trans_status.deposit, actual_trans_status.deposit);
    assert_eq!(expected_trans_status.dispute, actual_trans_status.dispute);

    let actual_account_info = accounts.get(&client).unwrap();
    assert_eq!(expected_account_info.available, actual_account_info.available);
    assert_eq!(expected_account_info.held, actual_account_info.held);
    assert_eq!(expected_account_info.total, actual_account_info.total);
    assert_eq!(expected_account_info.locked, actual_account_info.locked);
}

#[test]
fn test_handle_deposit_with_existing_account() {
    let client: u16 = 1;
    let trans_id: u32 = 1;
    let amount: i64 = 1 * UNITS_PER_WHOLE;

    let trans_id2: u32 = 2;
    let amount2: i64 = 2 * UNITS_PER_WHOLE;

    let mut accounts: HashMap<u16, AccountInfo> = HashMap::new();
    let mut transactions: HashMap<u16, HashMap<u32, TransactionStatus>> = HashMap::new();

    let expected_trans_status = TransactionStatus {
        amount: 2 * UNITS_PER_WHOLE,
        deposit: true,
        dispute: false,
    };

    let expected_account_info = AccountInfo {
        available: 3 * UNITS_PER_WHOLE,
        held: 0,
        total: 3 * UNITS_PER_WHOLE,
        locked: false,
    };

    handle_deposit(&mut accounts, &mut transactions, amount, &client, trans_id);
    handle_deposit(&mut accounts, &mut transactions, amount2, &client, trans_id2);

    let actual_trans_status = transactions.get(&client).unwrap().get(&trans_id2).unwrap();
    assert_eq!(expected_trans_status.amount, actual_trans_status.amount);
    assert_eq!(expected_trans_status.deposit, actual_trans_status.deposit);
    assert_eq!(expected_trans_status.dispute, actual_trans_status.dispute);

    let actual_account_info = accounts.get(&client).unwrap();
    assert_eq!(expected_account_info.available, actual_account_info.available);
    assert_eq!(expected_account_info.held, actual_account_info.held);
    assert_eq!(expected_account_info.total, actual_account_info.total);
    assert_eq!(expected_account_info.locked, actual_account_info.locked);
}

fn single_status_map(trans_id: u32, deposit: bool, dispute: bool) -> HashMap<u32, TransactionStatus> {
    let mut trans_map: HashMap<u32, TransactionStatus> = HashMap::new();
    trans_map.insert(trans_id, TransactionStatus { amount: 1 * UNITS_PER_WHOLE, deposit, dispute });
    trans_map
}

#[test]
fn test_does_transaction_exist_without_dispute_has_dispute() {
    let trans_id: u32 = 1;
    let trans_map = single_status_map(trans_id, false, true);
    let trans_map_opt: Option<&HashMap<u32, TransactionStatus>> = Option::Some(&trans_map);
    assert_eq!(does_transaction_exist_without_dispute(&&trans_id, trans_map_opt), false);
}

#[test]
fn test_does_transaction_exist_without_dispute_no_dispute() {
    let trans_id: u32 = 1;
    let trans_map = single_status_map(trans_id, false, false);
    let trans_map_opt: Option<&HashMap<u32, TransactionStatus>> = Option::Some(&trans_map);
    assert_eq!(does_transaction_exist_without_dispute(&&trans_id, trans_map_opt), true);
}

#[test]
fn test_does_deposit_transaction_exist_with_dispute_is_withdrawal() {
    let trans_id: u32 = 1;
    let trans_map = single_status_map(trans_id, false, true);
    let trans_map_opt: Option<&HashMap<u32, TransactionStatus>> = Option::Some(&trans_map);
    assert_eq!(does_deposit_transaction_exist_with_dispute(&&trans_id, trans_map_opt), false);
}

#[test]
fn test_does_deposit_transaction_exist_with_dispute_is_deposit() {
    let trans_id: u32 = 1;
    let trans_map = single_status_map(trans_id, true, true);
    let trans_map_opt: Option<&HashMap<u32, TransactionStatus>> = Option::Some(&trans_map);
    assert_eq!(does_deposit_transaction_exist_with_dispute(&&trans_id, trans_map_opt), true);
}

#[test]
fn test_does_transaction_exist_with_dispute_has_dispute() {
    let trans_id: u32 = 1;
    let trans_map = single_status_map(trans_id, false, true);
    let trans_map_opt: Option<&HashMap<u32, TransactionStatus>> = Option::Some(&trans_map);
    assert_eq!(does_transaction_exist_with_dispute(&&trans_id, trans_map_opt), true);
}

#[test]
fn test_does_transaction_exist_with_dispute_no_dispute() {
    let trans_id: u32 = 1;
    let trans_map = single_status_map(trans_id, false, false);
    let trans_map_opt: Option<&HashMap<u32, TransactionStatus>> = Option::Some(&trans_map);
    assert_eq!(does_transaction_exist_with_dispute(&&trans_id, trans_map_opt), false);
}

#[test]
fn test_does_transaction_exist_no_transaction_map() {
    let trans_id: u32 = 1;
    assert_eq!(does_transaction_exist(&&trans_id, None), false);
}

#[test]
fn test_does_transaction_exist_no_key_in_transaction_map() {
    let trans_id: u32 = 1;
    let other_trans_id: u32 = 2;
    let trans_map = single_status_map(other_trans_id, false, false);
    let trans_map_opt: Option<&HashMap<u32, TransactionStatus>> = Option::Some(&trans_map);
    assert_eq!(does_transaction_exist(&&trans_id, trans_map_opt), false);
}

#[test]
fn test_does_transaction_exist_with_transaction() {
    let trans_id: u32 = 1;
    let trans_map = single_status_map(trans_id, false, false);
    let trans_map_opt: Option<&HashMap<u32, TransactionStatus>> = Option::Some(&trans_map);
    assert_eq!(does_transaction_exist(&&trans_id, trans_map_opt), true);
}

#[test]
fn test_is_client_locked_none_account() {
    assert_eq!(is_client_locked(None), false);
}

#[test]
fn test_is_client_locked_with_account_unlocked() {
    let account = AccountInfo { available: 0, held: 0, total: 0, locked: false };
    let account_opt: Option<&AccountInfo> = Option::Some(&account);
    assert_eq!(is_client_locked(account_opt), false);
}

#[test]
fn test_is_client_locked_with_account_locked() {
    let account = AccountInfo { available: 0, held: 0, total: 0, locked: true };
    let account_opt: Option<&AccountInfo> = Option::Some(&account);
    assert_eq!(is_client_locked(account_opt), true);
}

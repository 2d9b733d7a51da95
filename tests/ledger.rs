use token_ledger::account::Account;
use token_ledger::ledger::{BlockTransfer, Ledger, ICP_FEE};
use token_ledger::types::{Operation, TransactionStatus, TxError};

fn acct(b: u8) -> Account {
    Account::new(vec![b, 1, 2])
}

fn genesis(supply: u128, fee: u128) -> Ledger {
    Ledger::init(
        "logo".to_string(),
        "Token".to_string(),
        "TKN".to_string(),
        8,
        supply,
        acct(1),
        fee,
        acct(9),
        100,
    )
}

#[test]
fn init_gives_owner_the_supply() {
    let l = genesis(1000, 1);
    assert_eq!(l.balance_of(&acct(1)), 1000);
    assert_eq!(l.total_supply(), 1000);
    assert_eq!(l.history_size(), 1);
    assert_eq!(l.balance_of(&acct(2)), 0);
    assert_eq!(l.name(), "Token");
    assert_eq!(l.symbol(), "TKN");
    assert_eq!(l.logo(), "logo");
    assert_eq!(l.decimals(), 8);
    assert_eq!(l.owner(), acct(1));
    assert_eq!(l.genesis.op, Operation::Mint);
    assert_eq!(l.genesis.amount, 1000);
    assert_eq!(l.genesis.fee, 1);
    assert_eq!(l.genesis.from.bytes.len(), 0);
}

#[test]
fn init_with_zero_supply_keeps_no_entry() {
    let l = genesis(0, 1);
    assert_eq!(l.balances.entries.len(), 0);
    assert_eq!(l.total_supply(), 0);
}

#[test]
fn transfer_moves_value_and_fee() {
    let mut l = genesis(1000, 1);
    let rec = l.transfer(&acct(1), &acct(2), 10, 200).unwrap();
    assert_eq!(l.balance_of(&acct(1)), 989);
    assert_eq!(l.balance_of(&acct(2)), 10);
    assert_eq!(l.balance_of(&acct(9)), 1);
    assert_eq!(l.history_size(), 2);
    assert_eq!(l.total_supply(), 1000);
    assert_eq!(rec.op, Operation::Transfer);
    assert_eq!(rec.caller, Some(acct(1)));
    assert_eq!(rec.from, acct(1));
    assert_eq!(rec.to, acct(2));
    assert_eq!(rec.amount, 10);
    assert_eq!(rec.fee, 1);
    assert_eq!(rec.timestamp, 200);
    assert_eq!(rec.status, TransactionStatus::Succeeded);
}

#[test]
fn transfer_of_whole_balance_removes_entry() {
    let mut l = genesis(11, 1);
    l.transfer(&acct(1), &acct(2), 10, 0).unwrap();
    assert_eq!(l.balance_of(&acct(1)), 0);
    assert!(l.balances.entries.iter().all(|e| e.0 != acct(1)));
    assert_eq!(l.balances.entries.len(), 2);
}

#[test]
fn transfer_over_balance_fails_without_change() {
    let mut l = genesis(1000, 1);
    let r = l.transfer(&acct(1), &acct(3), 1001, 0);
    assert_eq!(r.unwrap_err(), TxError::InsufficientBalance);
    assert_eq!(l.balance_of(&acct(1)), 1000);
    assert_eq!(l.balance_of(&acct(3)), 0);
    assert_eq!(l.history_size(), 1);
    // the fee counts too
    let r = l.transfer(&acct(1), &acct(3), 1000, 0);
    assert_eq!(r.unwrap_err(), TxError::InsufficientBalance);
    assert_eq!(l.history_size(), 1);
}

#[test]
fn transfer_with_huge_value_does_not_wrap() {
    let mut l = genesis(1000, 1);
    let r = l.transfer(&acct(1), &acct(3), u128::MAX, 0);
    assert_eq!(r.unwrap_err(), TxError::InsufficientBalance);
}

#[test]
fn approve_then_transfer_from() {
    let mut l = genesis(1000, 1);
    let rec = l.approve(&acct(1), &acct(2), 100, 0).unwrap();
    assert_eq!(rec.amount, 101);
    assert_eq!(rec.op, Operation::Approve);
    assert_eq!(l.allowance(&acct(1), &acct(2)), 101);
    assert_eq!(l.balance_of(&acct(1)), 999);
    let rec = l.transfer_from(&acct(2), &acct(1), &acct(3), 5, 0).unwrap();
    assert_eq!(rec.caller, Some(acct(2)));
    assert_eq!(rec.from, acct(1));
    assert_eq!(rec.op, Operation::TransferFrom);
    assert_eq!(l.allowance(&acct(1), &acct(2)), 95);
    assert_eq!(l.balance_of(&acct(1)), 993);
    assert_eq!(l.balance_of(&acct(3)), 5);
    assert_eq!(l.balance_of(&acct(9)), 2);
    assert_eq!(l.history_size(), 3);
}

#[test]
fn approve_replaces_rather_than_adds() {
    let mut l = genesis(1000, 1);
    l.approve(&acct(1), &acct(2), 100, 0).unwrap();
    l.approve(&acct(1), &acct(2), 7, 0).unwrap();
    assert_eq!(l.allowance(&acct(1), &acct(2)), 8);
    assert_eq!(l.get_allowance_size(), 1);
}

#[test]
fn transfer_from_spending_whole_allowance_prunes_it() {
    let mut l = genesis(1000, 1);
    l.approve(&acct(1), &acct(2), 5, 0).unwrap();
    assert_eq!(l.allowance(&acct(1), &acct(2)), 6);
    l.transfer_from(&acct(2), &acct(1), &acct(3), 5, 0).unwrap();
    assert_eq!(l.allowance(&acct(1), &acct(2)), 0);
    assert_eq!(l.allowances.entries.len(), 0);
    assert_eq!(l.get_allowance_size(), 0);
    assert!(l.get_user_approvals(&acct(1)).is_empty());
}

#[test]
fn transfer_from_needs_allowance_for_value_and_fee() {
    let mut l = genesis(1000, 1);
    l.approve(&acct(1), &acct(2), 4, 0).unwrap();
    let r = l.transfer_from(&acct(2), &acct(1), &acct(3), 5, 0);
    assert_eq!(r.unwrap_err(), TxError::InsufficientAllowance);
    assert_eq!(l.allowance(&acct(1), &acct(2)), 5);
    assert_eq!(l.history_size(), 2);
}

#[test]
fn transfer_from_needs_balance() {
    let mut l = genesis(10, 1);
    l.approve(&acct(1), &acct(2), 50, 0).unwrap();
    let r = l.transfer_from(&acct(2), &acct(1), &acct(3), 20, 0);
    assert_eq!(r.unwrap_err(), TxError::InsufficientBalance);
    assert_eq!(l.balance_of(&acct(1)), 9);
}

#[test]
fn approve_needs_fee_and_room() {
    let mut l = genesis(1000, 1);
    let r = l.approve(&acct(4), &acct(2), 1, 0);
    assert_eq!(r.unwrap_err(), TxError::InsufficientBalance);
    let r = l.approve(&acct(1), &acct(2), u128::MAX, 0);
    assert_eq!(r.unwrap_err(), TxError::Other);
    assert_eq!(l.balance_of(&acct(1)), 1000);
}

#[test]
fn user_approvals_list_spenders() {
    let mut l = genesis(1000, 0);
    l.approve(&acct(1), &acct(2), 3, 0).unwrap();
    l.approve(&acct(1), &acct(3), 4, 0).unwrap();
    let mut v = l.get_user_approvals(&acct(1));
    v.sort_by(|a, b| a.1.cmp(&b.1));
    assert_eq!(v, vec![(acct(2), 3), (acct(3), 4)]);
    assert_eq!(l.get_allowance_size(), 2);
    // with no fee, nothing goes to the fee recipient
    assert_eq!(l.balance_of(&acct(9)), 0);
    assert_eq!(l.balance_of(&acct(1)), 1000);
}

#[test]
fn mint_by_owner_only() {
    let mut l = genesis(1000, 1);
    let r = l.mint(&acct(2), &acct(2), 5, 0);
    assert_eq!(r.unwrap_err(), TxError::Unauthorized);
    let rec = l.mint(&acct(1), &acct(2), 5, 0).unwrap();
    assert_eq!(rec.fee, 0);
    assert_eq!(rec.op, Operation::Mint);
    assert_eq!(l.balance_of(&acct(2)), 5);
    assert_eq!(l.total_supply(), 1005);
    assert_eq!(l.history_size(), 2);
    let r = l.mint(&acct(1), &acct(2), u128::MAX, 0);
    assert_eq!(r.unwrap_err(), TxError::Other);
    assert_eq!(l.total_supply(), 1005);
}

#[test]
fn burn_reduces_supply() {
    let mut l = genesis(1000, 1);
    let r = l.burn(&acct(1), 1001, 0);
    assert_eq!(r.unwrap_err(), TxError::InsufficientBalance);
    let rec = l.burn(&acct(1), 400, 0).unwrap();
    assert_eq!(rec.op, Operation::Burn);
    assert_eq!(l.balance_of(&acct(1)), 600);
    assert_eq!(l.total_supply(), 600);
    l.burn(&acct(1), 600, 0).unwrap();
    assert_eq!(l.balances.entries.len(), 0);
    assert_eq!(l.total_supply(), 0);
}

#[test]
fn withdraw_send_failure_restores_state() {
    let mut l = genesis(100_000, 1);
    let net = l.withdraw(&acct(1), 30_000).unwrap();
    assert_eq!(net, 30_000 - ICP_FEE);
    assert_eq!(l.balance_of(&acct(1)), 70_000);
    assert_eq!(l.total_supply(), 70_000);
    let r = l.withdraw_settle(&acct(1), 30_000, false, 5);
    assert_eq!(r.unwrap_err(), TxError::LedgerTrap);
    assert_eq!(l.balance_of(&acct(1)), 100_000);
    assert_eq!(l.total_supply(), 100_000);
    assert_eq!(l.history_size(), 1);
    assert_eq!(l.tx_log().len(), 0);
}

#[test]
fn withdraw_success_is_counted() {
    let mut l = genesis(100_000, 1);
    l.withdraw(&acct(1), 20_000).unwrap();
    let rec = l.withdraw_settle(&acct(1), 20_000, true, 5).unwrap();
    assert_eq!(rec.op, Operation::Burn);
    assert_eq!(rec.amount, 20_000);
    assert_eq!(l.balance_of(&acct(1)), 80_000);
    assert_eq!(l.history_size(), 2);
}

#[test]
fn withdraw_errors() {
    let mut l = genesis(100_000, 1);
    assert_eq!(l.withdraw(&acct(2), 20_000).unwrap_err(), TxError::InsufficientBalance);
    assert_eq!(l.withdraw(&acct(1), 200_000).unwrap_err(), TxError::InsufficientBalance);
    assert_eq!(l.withdraw(&acct(1), ICP_FEE - 1).unwrap_err(), TxError::AmountTooSmall);
    assert_eq!(l.balance_of(&acct(1)), 100_000);
}

fn deposit(amount: u64) -> BlockTransfer {
    BlockTransfer { from: vec![7; 32], to: vec![8; 32], amount }
}

#[test]
fn mint_for_deposit() {
    let mut l = genesis(1000, 1);
    let rec = l
        .mint_for(&acct(2), &acct(3), 42, Some(deposit(500)), &vec![7; 32], &vec![8; 32], 0)
        .unwrap();
    assert_eq!(rec.caller, Some(acct(2)));
    assert_eq!(rec.to, acct(3));
    assert_eq!(l.balance_of(&acct(3)), 500);
    assert_eq!(l.total_supply(), 1500);
    assert!(l.is_block_used(42));
    assert!(l.get_block_used().contains(&42));
    assert_eq!(l.get_block_used().len(), 1);
    let r = l.mint_for(&acct(2), &acct(3), 42, Some(deposit(500)), &vec![7; 32], &vec![8; 32], 0);
    assert_eq!(r.unwrap_err(), TxError::BlockUsed);
    assert_eq!(l.total_supply(), 1500);
}

#[test]
fn mint_for_rejections_leave_block_unused() {
    let mut l = genesis(1000, 1);
    let r = l.mint_for(&acct(2), &acct(2), 1, None, &vec![7; 32], &vec![8; 32], 0);
    assert_eq!(r.unwrap_err(), TxError::ErrorOperationStyle);
    let r = l.mint_for(&acct(2), &acct(2), 1, Some(deposit(5)), &vec![6; 32], &vec![8; 32], 0);
    assert_eq!(r.unwrap_err(), TxError::Unauthorized);
    let r = l.mint_for(&acct(2), &acct(2), 1, Some(deposit(5)), &vec![7; 32], &vec![6; 32], 0);
    assert_eq!(r.unwrap_err(), TxError::ErrorTo);
    assert!(!l.is_block_used(1));
    assert_eq!(l.history_size(), 1);
}

#[test]
fn holders_by_balance() {
    let mut l = genesis(1000, 0);
    l.transfer(&acct(1), &acct(2), 300, 0).unwrap();
    l.transfer(&acct(1), &acct(3), 500, 0).unwrap();
    let h = l.get_holders(0, 10);
    assert_eq!(h, vec![(acct(3), 500), (acct(2), 300), (acct(1), 200)]);
    assert_eq!(l.get_holders(1, 1), vec![(acct(2), 300)]);
    assert_eq!(l.get_holders(2, usize::MAX), vec![(acct(1), 200)]);
    assert!(l.get_holders(5, 1).is_empty());
    assert_eq!(l.get_token_info(7).holder_number, 3);
}

#[test]
fn owner_settings() {
    let mut l = genesis(1000, 1);
    assert!(l.is_auth(&acct(1)));
    assert!(!l.is_auth(&acct(2)));
    l.set_name(&acct(1), "New".to_string());
    l.set_logo(&acct(1), "pic".to_string());
    l.set_fee(&acct(1), 3);
    l.set_fee_to(&acct(1), acct(5));
    l.set_owner(&acct(1), acct(6));
    let m = l.get_metadata();
    assert_eq!(m.name, "New");
    assert_eq!(m.logo, "pic");
    assert_eq!(m.fee, 3);
    assert_eq!(m.owner, acct(6));
    let info = l.get_token_info(77);
    assert_eq!(info.fee_to, acct(5));
    assert_eq!(info.cycles, 77);
    assert_eq!(info.deploy_time, 100);
    l.transfer(&acct(1), &acct(2), 10, 0).unwrap();
    assert_eq!(l.balance_of(&acct(5)), 3);
    let g = l.set_genesis(&acct(6));
    assert_eq!(g, l.genesis);
}

#[test]
fn withdraw_rollback_without_room_changes_nothing() {
    let mut l = genesis(u128::MAX, 0);
    l.withdraw(&acct(1), 20_000).unwrap();
    l.mint(&acct(1), &acct(2), 20_000, 0).unwrap();
    assert_eq!(l.total_supply(), u128::MAX);
    let r = l.withdraw_settle(&acct(1), 20_000, false, 0);
    assert_eq!(r.unwrap_err(), TxError::Other);
    assert_eq!(l.balance_of(&acct(1)), u128::MAX - 20_000);
    assert_eq!(l.total_supply(), u128::MAX);
}

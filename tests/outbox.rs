use token_ledger::account::Account;
use token_ledger::ledger::Ledger;
use token_ledger::outbox::TxLog;
use token_ledger::types::{Operation, TxError, TxRecord};

fn record(amount: u128) -> TxRecord {
    let a = Account::new(vec![1]);
    TxRecord::succeeded(&a, Operation::Transfer, &a, &a, amount, 0, 0)
}

#[test]
fn delivered_record_returns_its_id() {
    let mut log = TxLog::new();
    let batch = log.insert_into_cap(record(1));
    assert!(batch.retry.is_none());
    assert_eq!(batch.record, record(1));
    assert_eq!(log.settle(batch.record, Ok(17)), Ok(17));
    assert_eq!(log.len(), 0);
}

#[test]
fn failed_record_is_queued_and_retried_first() {
    let mut log = TxLog::new();
    let batch = log.insert_into_cap(record(1));
    assert_eq!(log.settle(batch.record, Err(())), Err(TxError::Other));
    assert_eq!(Vec::from(log.ie_records.clone()), vec![record(1)]);
    let batch = log.insert_into_cap(record(2));
    assert_eq!(batch.retry, Some(record(1)));
    assert_eq!(log.len(), 0);
    // the retry fails again: back of the queue
    let _ = log.settle(batch.retry.unwrap(), Err(()));
    assert_eq!(log.settle(batch.record, Err(())), Err(TxError::Other));
    assert_eq!(Vec::from(log.ie_records.clone()), vec![record(1), record(2)]);
    let batch = log.insert_into_cap(record(3));
    assert_eq!(batch.retry, Some(record(1)));
    assert_eq!(Vec::from(log.ie_records.clone()), vec![record(2)]);
}

#[test]
fn snapshot_round_trip() {
    let mut l = Ledger::init(
        String::new(),
        "T".to_string(),
        "T".to_string(),
        0,
        50,
        Account::new(vec![1]),
        2,
        Account::new(vec![2]),
        0,
    );
    l.approve(&Account::new(vec![1]), &Account::new(vec![3]), 4, 0).unwrap();
    let b = l.tx_log.insert_into_cap(record(5));
    let _ = l.tx_log.settle(b.record, Err(()));
    let entries = l.balances.entries.clone();
    let queue = l.tx_log.ie_records.clone();
    let history = l.history_size();
    let genesis = l.genesis.clone();
    let back = Ledger::post_upgrade(l.pre_upgrade());
    assert_eq!(back.balances.entries, entries);
    assert_eq!(back.allowances.entries.len(), 1);
    assert_eq!(back.allowance(&Account::new(vec![1]), &Account::new(vec![3])), 6);
    assert_eq!(back.tx_log.ie_records, queue);
    assert_eq!(back.tx_log.len(), 1);
    assert_eq!(back.history_size(), history);
    assert_eq!(back.genesis, genesis);
}

//! Errors, audit records and the token's configuration.

use vstd::prelude::*;
use crate::account::Account;

verus! {

/// Why an operation was refused.
#[derive(Debug, Clone, Copy, PartialEq, Eq, Structural)]
pub enum TxError {
    InsufficientBalance,
    InsufficientAllowance,
    Unauthorized,
    LedgerTrap,
    AmountTooSmall,
    BlockUsed,
    ErrorOperationStyle,
    ErrorTo,
    Other,
}

/// The kind of a balance-changing operation, as written in the audit log.
#[derive(Debug, Clone, Copy, PartialEq, Eq, Structural)]
pub enum Operation {
    Approve,
    Mint,
    Transfer,
    TransferFrom,
    Burn,
}

#[derive(Debug, Clone, Copy, PartialEq, Eq, Structural)]
pub enum TransactionStatus {
    Succeeded,
    Failed,
}

/// An audit record of one operation.
#[derive(Debug, Clone, PartialEq, Eq)]
pub struct TxRecord {
    pub caller: Option<Account>,
    pub op: Operation,
    pub from: Account,
    pub to: Account,
    pub amount: u128,
    pub fee: u128,
    pub timestamp: u64,
    pub status: TransactionStatus,
}

/// What an audit record says, with accounts as bytes.
pub ghost struct RecordView {
    pub caller: Option<Seq<u8>>,
    pub op: Operation,
    pub from: Seq<u8>,
    pub to: Seq<u8>,
    pub amount: u128,
    pub fee: u128,
    pub timestamp: u64,
    pub status: TransactionStatus,
}

impl View for TxRecord {
    type V = RecordView;

    open spec fn view(&self) -> RecordView {
        RecordView {
            caller: match self.caller {
                Some(c) => Some(c@),
                None => None,
            },
            op: self.op,
            from: self.from@,
            to: self.to@,
            amount: self.amount,
            fee: self.fee,
            timestamp: self.timestamp,
            status: self.status,
        }
    }
}

/// The record of a successful operation started by `caller`.
pub open spec fn succeeded(
    caller: Seq<u8>,
    op: Operation,
    from: Seq<u8>,
    to: Seq<u8>,
    amount: u128,
    fee: u128,
    timestamp: u64,
) -> RecordView {
    RecordView {
        caller: Some(caller),
        op,
        from,
        to,
        amount,
        fee,
        timestamp,
        status: TransactionStatus::Succeeded,
    }
}

impl TxRecord {
    pub fn succeeded(
        caller: &Account,
        op: Operation,
        from: &Account,
        to: &Account,
        amount: u128,
        fee: u128,
        timestamp: u64,
    ) -> (r: TxRecord)
        ensures
            r@ == succeeded(caller@, op, from@, to@, amount, fee, timestamp),
    {
        TxRecord {
            caller: Some(caller.duplicate()),
            op,
            from: from.duplicate(),
            to: to.duplicate(),
            amount,
            fee,
            timestamp,
            status: TransactionStatus::Succeeded,
        }
    }

    pub fn duplicate(&self) -> (r: TxRecord)
        ensures
            r@ == self@,
    {
        TxRecord {
            caller: match &self.caller {
                Some(c) => Some(c.duplicate()),
                None => None,
            },
            op: self.op,
            from: self.from.duplicate(),
            to: self.to.duplicate(),
            amount: self.amount,
            fee: self.fee,
            timestamp: self.timestamp,
            status: self.status,
        }
    }
}

impl Default for TxRecord {
    /// An empty mint record between anonymous principals.
    fn default() -> (r: TxRecord)
        ensures
            r@ == (RecordView {
                caller: None,
                op: Operation::Mint,
                from: seq![4u8],
                to: seq![4u8],
                amount: 0,
                fee: 0,
                timestamp: 0,
                status: TransactionStatus::Succeeded,
            }),
    {
        TxRecord {
            caller: None,
            op: Operation::Mint,
            from: Account::anonymous(),
            to: Account::anonymous(),
            amount: 0,
            fee: 0,
            timestamp: 0,
            status: TransactionStatus::Succeeded,
        }
    }
}

/// The token's configuration and counters.
#[derive(Debug, Clone)]
pub struct StatsData {
    pub logo: String,
    pub name: String,
    pub symbol: String,
    pub decimals: u8,
    pub total_supply: u128,
    pub owner: Account,
    pub fee: u128,
    pub fee_to: Account,
    pub history_size: u64,
    pub deploy_time: u64,
}

impl StatsData {
    /// The settings that only the owner changes agree.
    pub open spec fn same_settings(&self, o: &StatsData) -> bool {
        &&& self.logo@ == o.logo@
        &&& self.name@ == o.name@
        &&& self.symbol@ == o.symbol@
        &&& self.decimals == o.decimals
        &&& self.owner@ == o.owner@
        &&& self.fee == o.fee
        &&& self.fee_to@ == o.fee_to@
        &&& self.deploy_time == o.deploy_time
    }
}

impl Default for StatsData {
    /// Empty texts, zero amounts and counters, anonymous owner and fee recipient.
    fn default() -> (r: StatsData)
        ensures
            r.logo@.len() == 0,
            r.name@.len() == 0,
            r.symbol@.len() == 0,
            r.decimals == 0,
            r.total_supply == 0,
            r.owner@ == seq![4u8],
            r.fee == 0,
            r.fee_to@ == seq![4u8],
            r.history_size == 0,
            r.deploy_time == 0,
    {
        StatsData {
            logo: String::new(),
            name: String::new(),
            symbol: String::new(),
            decimals: 0,
            total_supply: 0,
            owner: Account::anonymous(),
            fee: 0,
            fee_to: Account::anonymous(),
            history_size: 0,
            deploy_time: 0,
        }
    }
}

/// The history counter after one more operation; it stops at its maximum.
pub open spec fn bump(h: u64) -> u64 {
    if h < u64::MAX {
        (h + 1) as u64
    } else {
        h
    }
}

pub fn next_history(h: u64) -> (r: u64)
    ensures
        r == bump(h),
{
    if h < u64::MAX {
        h + 1
    } else {
        h
    }
}

/// The token's public description.
#[derive(Debug, Clone)]
pub struct Metadata {
    pub logo: String,
    pub name: String,
    pub symbol: String,
    pub decimals: u8,
    pub total_supply: u128,
    pub owner: Account,
    pub fee: u128,
}

/// The description together with the counters.
#[derive(Debug, Clone)]
pub struct TokenInfo {
    pub metadata: Metadata,
    pub fee_to: Account,
    pub history_size: u64,
    pub deploy_time: u64,
    pub holder_number: usize,
    pub cycles: u64,
}

} // verus!

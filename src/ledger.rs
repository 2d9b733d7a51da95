//! The ledger state and the fee and transfer engine.

use std::collections::HashSet;
use vstd::prelude::*;
use crate::account::Account;
use crate::outbox::TxLog;
use crate::store::{shift, Allowances, AmountMap};
use crate::types::{
    bump, next_history, succeeded, Operation, StatsData, TxError, TxRecord,
};

verus! {

broadcast use vstd::std_specs::hash::group_hash_axioms;

/// The whole state of the token.
#[derive(Debug)]
pub struct Ledger {
    pub stats: StatsData,
    pub balances: AmountMap,
    pub allowances: Allowances,
    /// Heights of reserve-ledger blocks already turned into tokens.
    pub blocks: HashSet<u64>,
    pub tx_log: TxLog,
    /// The record of the initial mint, which the owner may send again.
    pub genesis: TxRecord,
}

pub type TxReceipt = Result<TxRecord, TxError>;

/// The smallest amount, in e8s, that the reserve ledger side accepts.
pub const THRESHOLD: u64 = 0;

/// The reserve ledger's own fee, in e8s, taken out of every withdrawal.
pub const ICP_FEE: u64 = 10000;

/// The transfer found in a reserve-ledger block, with accounts as bytes.
#[derive(Debug, Clone)]
pub struct BlockTransfer {
    pub from: Vec<u8>,
    pub to: Vec<u8>,
    pub amount: u64,
}

impl Ledger {
    /// The tables are well formed and the balances add up to the total
    /// supply.
    pub open spec fn wf(&self) -> bool {
        &&& self.balances.wf()
        &&& self.allowances.wf()
        &&& self.balances.sum() == self.stats.total_supply as nat
    }

    /// Allowances, used blocks, outbox and genesis record agree.
    pub open spec fn rest_same(&self, o: &Ledger) -> bool {
        &&& self.allowances == o.allowances
        &&& self.blocks == o.blocks
        &&& self.tx_log == o.tx_log
        &&& self.genesis == o.genesis
    }

    /// A successful operation left the settings alone, kept the supply at
    /// `supply` and counted itself in the history.
    pub open spec fn counted(&self, o: &Ledger, supply: int) -> bool {
        &&& self.stats.same_settings(&o.stats)
        &&& self.stats.total_supply == supply
        &&& self.stats.history_size == bump(o.stats.history_size)
    }

    /// Genesis: the owner holds the whole initial supply and the history
    /// counts the initial mint.
    pub fn init(
        logo: String,
        name: String,
        symbol: String,
        decimals: u8,
        initial_supply: u128,
        owner: Account,
        fee: u128,
        fee_to: Account,
        now: u64,
    ) -> (r: Ledger)
        ensures
            r.wf(),
            r.stats.logo@ == logo@,
            r.stats.name@ == name@,
            r.stats.symbol@ == symbol@,
            r.stats.decimals == decimals,
            r.stats.total_supply == initial_supply,
            r.stats.owner@ == owner@,
            r.stats.fee == fee,
            r.stats.fee_to@ == fee_to@,
            r.stats.history_size == 1,
            r.stats.deploy_time == now,
            r.balances@ == Map::new(|k: Seq<u8>| true, |k: Seq<u8>| 0nat).insert(
                owner@,
                initial_supply as nat,
            ),
            forall|p: (Seq<u8>, Seq<u8>)| #[trigger] r.allowances@[p] == 0,
            r.blocks@ == Set::<u64>::empty(),
            r.tx_log.ie_records@.len() == 0,
            r.genesis@ == succeeded(
                owner@,
                Operation::Mint,
                Seq::<u8>::empty(),
                owner@,
                initial_supply,
                fee,
                now,
            ),
    {
        let mut balances = AmountMap::new();
        balances.set(&owner, initial_supply);
        let genesis = TxRecord::succeeded(
            &owner,
            Operation::Mint,
            &Account::management(),
            &owner,
            initial_supply,
            fee,
            now,
        );
        let stats = StatsData {
            logo,
            name,
            symbol,
            decimals,
            total_supply: initial_supply,
            owner,
            fee,
            fee_to,
            history_size: 1,
            deploy_time: now,
        };
        Ledger {
            stats,
            balances,
            allowances: Allowances::new(),
            blocks: HashSet::new(),
            tx_log: TxLog::new(),
            genesis,
        }
    }

    /// Moves the fee from `user` to the fee recipient when the fee is not zero.
    fn charge_fee(&mut self, user: &Account)
        requires
            old(self).wf(),
            old(self).balances@[user@] >= old(self).stats.fee,
        ensures
            final(self).wf(),
            final(self).balances@ == shift(
                old(self).balances@,
                user@,
                old(self).stats.fee_to@,
                old(self).stats.fee as nat,
            ),
            final(self).stats == old(self).stats,
            final(self).rest_same(old(self)),
    {
        if self.stats.fee > 0 {
            self.balances.shift(user, &self.stats.fee_to, self.stats.fee);
        } else {
            assert(self.balances@ =~= shift(
                self.balances@,
                user@,
                self.stats.fee_to@,
                0,
            ));
        }
    }

    fn history_inc(&mut self)
        ensures
            final(self).stats.history_size == bump(old(self).stats.history_size),
            final(self).stats.total_supply == old(self).stats.total_supply,
            final(self).stats.same_settings(&old(self).stats),
            final(self).balances == old(self).balances,
            final(self).rest_same(old(self)),
    {
        self.stats.history_size = next_history(self.stats.history_size);
    }

    /// Sends `value` from `caller` to `to`; the fee goes from `caller` to the
    /// fee recipient first.
    pub fn transfer(&mut self, caller: &Account, to: &Account, value: u128, now: u64) -> (r:
        TxReceipt)
        requires
            old(self).wf(),
        ensures
            final(self).wf(),
            r is Ok <==> old(self).balances@[caller@] >= value + old(self).stats.fee,
            match r {
                Ok(rec) => {
                    &&& final(self).balances@ == shift(
                        shift(
                            old(self).balances@,
                            caller@,
                            old(self).stats.fee_to@,
                            old(self).stats.fee as nat,
                        ),
                        caller@,
                        to@,
                        value as nat,
                    )
                    &&& final(self).counted(old(self), old(self).stats.total_supply as int)
                    &&& final(self).rest_same(old(self))
                    &&& rec@ == succeeded(
                        caller@,
                        Operation::Transfer,
                        caller@,
                        to@,
                        value,
                        old(self).stats.fee,
                        now,
                    )
                },
                Err(e) => e == TxError::InsufficientBalance && *final(self) == *old(self),
            },
    {
        let fee = self.stats.fee;
        let balance = self.balances.get(caller);
        if balance < value || balance - value < fee {
            return Err(TxError::InsufficientBalance);
        }
        self.charge_fee(caller);
        self.balances.shift(caller, to, value);
        self.history_inc();
        Ok(TxRecord::succeeded(caller, Operation::Transfer, caller, to, value, fee, now))
    }
    /// Lets `caller` spend from the allowance that `from` granted it: the fee
    /// and `value` leave `from`, and the allowance drops by both.
    pub fn transfer_from(
        &mut self,
        caller: &Account,
        from: &Account,
        to: &Account,
        value: u128,
        now: u64,
    ) -> (r: TxReceipt)
        requires
            old(self).wf(),
        ensures
            final(self).wf(),
            r is Ok <==> old(self).allowances@[(from@, caller@)] >= value + old(self).stats.fee
                && old(self).balances@[from@] >= value + old(self).stats.fee,
            match r {
                Ok(rec) => {
                    &&& final(self).balances@ == shift(
                        shift(
                            old(self).balances@,
                            from@,
                            old(self).stats.fee_to@,
                            old(self).stats.fee as nat,
                        ),
                        from@,
                        to@,
                        value as nat,
                    )
                    &&& final(self).allowances@ == old(self).allowances@.insert(
                        (from@, caller@),
                        (old(self).allowances@[(from@, caller@)] - value
                            - old(self).stats.fee) as nat,
                    )
                    &&& final(self).counted(old(self), old(self).stats.total_supply as int)
                    &&& final(self).blocks == old(self).blocks
                    &&& final(self).tx_log == old(self).tx_log
                    &&& final(self).genesis == old(self).genesis
                    &&& rec@ == succeeded(
                        caller@,
                        Operation::TransferFrom,
                        from@,
                        to@,
                        value,
                        old(self).stats.fee,
                        now,
                    )
                },
                Err(e) => *final(self) == *old(self) && if old(self).allowances@[(from@, caller@)]
                    < value + old(self).stats.fee {
                    e == TxError::InsufficientAllowance
                } else {
                    e == TxError::InsufficientBalance
                },
            },
    {
        let fee = self.stats.fee;
        let allowed = self.allowances.get(from, caller);
        if allowed < value || allowed - value < fee {
            return Err(TxError::InsufficientAllowance);
        }
        let balance = self.balances.get(from);
        if balance < value || balance - value < fee {
            return Err(TxError::InsufficientBalance);
        }
        self.charge_fee(from);
        self.balances.shift(from, to, value);
        self.allowances.set(from, caller, allowed - value - fee);
        self.history_inc();
        Ok(TxRecord::succeeded(caller, Operation::TransferFrom, from, to, value, fee, now))
    }

    /// Charges the fee to `caller` and sets (does not add to) the allowance
    /// of `spender` to `value` plus the fee.
    pub fn approve(&mut self, caller: &Account, spender: &Account, value: u128, now: u64) -> (r:
        TxReceipt)
        requires
            old(self).wf(),
        ensures
            final(self).wf(),
            r is Ok <==> old(self).balances@[caller@] >= old(self).stats.fee && value
                + old(self).stats.fee <= u128::MAX,
            match r {
                Ok(rec) => {
                    &&& final(self).balances@ == shift(
                        old(self).balances@,
                        caller@,
                        old(self).stats.fee_to@,
                        old(self).stats.fee as nat,
                    )
                    &&& final(self).allowances@ == old(self).allowances@.insert(
                        (caller@, spender@),
                        (value + old(self).stats.fee) as nat,
                    )
                    &&& final(self).counted(old(self), old(self).stats.total_supply as int)
                    &&& final(self).blocks == old(self).blocks
                    &&& final(self).tx_log == old(self).tx_log
                    &&& final(self).genesis == old(self).genesis
                    &&& rec@ == succeeded(
                        caller@,
                        Operation::Approve,
                        caller@,
                        spender@,
                        (value + old(self).stats.fee) as u128,
                        old(self).stats.fee,
                        now,
                    )
                },
                Err(e) => *final(self) == *old(self) && if old(self).balances@[caller@]
                    < old(self).stats.fee {
                    e == TxError::InsufficientBalance
                } else {
                    e == TxError::Other
                },
            },
    {
        let fee = self.stats.fee;
        if self.balances.get(caller) < fee {
            return Err(TxError::InsufficientBalance);
        }
        if value > u128::MAX - fee {
            return Err(TxError::Other);
        }
        self.charge_fee(caller);
        let v = value + fee;
        self.allowances.set(caller, spender, v);
        self.history_inc();
        Ok(TxRecord::succeeded(caller, Operation::Approve, caller, spender, v, fee, now))
    }

    /// Creates `amount` new tokens for `to`; only the owner may.
    pub fn mint(&mut self, caller: &Account, to: &Account, amount: u128, now: u64) -> (r:
        TxReceipt)
        requires
            old(self).wf(),
        ensures
            final(self).wf(),
            r is Ok <==> caller@ == old(self).stats.owner@ && old(self).stats.total_supply + amount
                <= u128::MAX,
            match r {
                Ok(rec) => {
                    &&& final(self).balances@ == old(self).balances@.insert(
                        to@,
                        old(self).balances@[to@] + amount as nat,
                    )
                    &&& final(self).counted(old(self), old(self).stats.total_supply + amount)
                    &&& final(self).rest_same(old(self))
                    &&& rec@ == succeeded(caller@, Operation::Mint, caller@, to@, amount, 0, now)
                },
                Err(e) => *final(self) == *old(self) && if caller@ != old(self).stats.owner@ {
                    e == TxError::Unauthorized
                } else {
                    e == TxError::Other
                },
            },
    {
        if !caller.same(&self.stats.owner) {
            return Err(TxError::Unauthorized);
        }
        if amount > u128::MAX - self.stats.total_supply {
            return Err(TxError::Other);
        }
        self.balances.credit(to, amount);
        self.stats.total_supply = self.stats.total_supply + amount;
        self.history_inc();
        Ok(TxRecord::succeeded(caller, Operation::Mint, caller, to, amount, 0, now))
    }

    /// Destroys `amount` of the caller's tokens.
    pub fn burn(&mut self, caller: &Account, amount: u128, now: u64) -> (r: TxReceipt)
        requires
            old(self).wf(),
        ensures
            final(self).wf(),
            r is Ok <==> old(self).balances@[caller@] >= amount,
            match r {
                Ok(rec) => {
                    &&& final(self).balances@ == old(self).balances@.insert(
                        caller@,
                        (old(self).balances@[caller@] - amount) as nat,
                    )
                    &&& final(self).counted(old(self), old(self).stats.total_supply - amount)
                    &&& final(self).rest_same(old(self))
                    &&& rec@ == succeeded(
                        caller@,
                        Operation::Burn,
                        caller@,
                        caller@,
                        amount,
                        0,
                        now,
                    )
                },
                Err(e) => e == TxError::InsufficientBalance && *final(self) == *old(self),
            },
    {
        if self.balances.get(caller) < amount {
            return Err(TxError::InsufficientBalance);
        }
        self.balances.debit(caller, amount);
        self.stats.total_supply = self.stats.total_supply - amount;
        self.history_inc();
        Ok(TxRecord::succeeded(caller, Operation::Burn, caller, caller, amount, 0, now))
    }
    /// First phase of a withdrawal to the reserve ledger: takes `value` from
    /// the caller and from the supply before the reserve ledger is asked to
    /// send. Returns the amount to send, net of the reserve ledger's fee.
    pub fn withdraw(&mut self, caller: &Account, value: u64) -> (r: Result<u64, TxError>)
        requires
            old(self).wf(),
        ensures
            final(self).wf(),
            r is Ok <==> value >= THRESHOLD && old(self).balances@[caller@] >= value
                && old(self).stats.total_supply >= value && value >= ICP_FEE,
            match r {
                Ok(net) => {
                    &&& net == value - ICP_FEE
                    &&& final(self).balances@ == old(self).balances@.insert(
                        caller@,
                        (old(self).balances@[caller@] - value) as nat,
                    )
                    &&& final(self).stats.total_supply == old(self).stats.total_supply - value
                    &&& final(self).stats.history_size == old(self).stats.history_size
                    &&& final(self).stats.same_settings(&old(self).stats)
                    &&& final(self).rest_same(old(self))
                },
                Err(e) => *final(self) == *old(self) && if value < THRESHOLD {
                    e == TxError::AmountTooSmall
                } else if old(self).balances@[caller@] < value || old(self).stats.total_supply
                    < value {
                    e == TxError::InsufficientBalance
                } else {
                    e == TxError::AmountTooSmall
                },
            },
    {
        if value < THRESHOLD {
            return Err(TxError::AmountTooSmall);
        }
        let v = value as u128;
        if self.balances.get(caller) < v || self.stats.total_supply < v {
            return Err(TxError::InsufficientBalance);
        }
        if value < ICP_FEE {
            return Err(TxError::AmountTooSmall);
        }
        self.balances.debit(caller, v);
        self.stats.total_supply = self.stats.total_supply - v;
        Ok(value - ICP_FEE)
    }

    /// Second phase of a withdrawal, once the reserve ledger has answered:
    /// `sent` tells whether it sent the funds. A send counts the withdrawal
    /// and returns its record. A failed send gives `value` back to the caller
    /// and to the supply and reports `LedgerTrap`; only if the supply has
    /// meanwhile grown so far that it cannot take `value` back does nothing
    /// change, and `Other` is reported.
    pub fn withdraw_settle(&mut self, caller: &Account, value: u64, sent: bool, now: u64) -> (r:
        TxReceipt)
        requires
            old(self).wf(),
        ensures
            final(self).wf(),
            r is Ok <==> sent,
            match r {
                Ok(rec) => {
                    &&& final(self).balances == old(self).balances
                    &&& final(self).counted(old(self), old(self).stats.total_supply as int)
                    &&& final(self).rest_same(old(self))
                    &&& rec@ == succeeded(
                        caller@,
                        Operation::Burn,
                        caller@,
                        caller@,
                        value as u128,
                        0,
                        now,
                    )
                },
                Err(e) => if old(self).stats.total_supply + value <= u128::MAX {
                    &&& e == TxError::LedgerTrap
                    &&& final(self).balances@ == old(self).balances@.insert(
                        caller@,
                        old(self).balances@[caller@] + value as nat,
                    )
                    &&& final(self).stats.total_supply == old(self).stats.total_supply + value
                    &&& final(self).stats.history_size == old(self).stats.history_size
                    &&& final(self).stats.same_settings(&old(self).stats)
                    &&& final(self).rest_same(old(self))
                } else {
                    e == TxError::Other && *final(self) == *old(self)
                },
            },
    {
        if sent {
            self.history_inc();
            return Ok(
                TxRecord::succeeded(caller, Operation::Burn, caller, caller, value as u128, 0, now),
            );
        }
        let v = value as u128;
        if v > u128::MAX - self.stats.total_supply {
            return Err(TxError::Other);
        }
        self.balances.credit(caller, v);
        self.stats.total_supply = self.stats.total_supply + v;
        Err(TxError::LedgerTrap)
    }

    /// Turns a deposit on the reserve ledger into tokens for `beneficiary`.
    /// `transfer` is the transfer in block `block_height` (None when that
    /// block holds another kind of operation); `beneficiary_ledger_account`
    /// is the beneficiary's account on the reserve ledger and
    /// `own_ledger_account` this token's. Each block is used at most once.
    pub fn mint_for(
        &mut self,
        caller: &Account,
        beneficiary: &Account,
        block_height: u64,
        transfer: Option<BlockTransfer>,
        beneficiary_ledger_account: &Vec<u8>,
        own_ledger_account: &Vec<u8>,
        now: u64,
    ) -> (r: TxReceipt)
        requires
            old(self).wf(),
        ensures
            final(self).wf(),
            r is Ok <==> match transfer {
                Some(t) => {
                    &&& !old(self).blocks@.contains(block_height)
                    &&& t.from@ == beneficiary_ledger_account@
                    &&& t.to@ == own_ledger_account@
                    &&& t.amount >= THRESHOLD
                    &&& old(self).stats.total_supply + t.amount <= u128::MAX
                },
                None => false,
            },
            match r {
                Ok(rec) => match transfer {
                    Some(t) => {
                        &&& final(self).balances@ == old(self).balances@.insert(
                            beneficiary@,
                            old(self).balances@[beneficiary@] + t.amount as nat,
                        )
                        &&& final(self).blocks@ == old(self).blocks@.insert(block_height)
                        &&& final(self).counted(
                            old(self),
                            old(self).stats.total_supply + t.amount,
                        )
                        &&& final(self).allowances == old(self).allowances
                        &&& final(self).tx_log == old(self).tx_log
                        &&& final(self).genesis == old(self).genesis
                        &&& rec@ == succeeded(
                            caller@,
                            Operation::Mint,
                            beneficiary@,
                            beneficiary@,
                            t.amount as u128,
                            0,
                            now,
                        )
                    },
                    None => false,
                },
                Err(e) => *final(self) == *old(self) && match transfer {
                    None => e == TxError::ErrorOperationStyle,
                    Some(t) => if old(self).blocks@.contains(block_height) {
                        e == TxError::BlockUsed
                    } else if t.from@ != beneficiary_ledger_account@ {
                        e == TxError::Unauthorized
                    } else if t.to@ != own_ledger_account@ {
                        e == TxError::ErrorTo
                    } else if t.amount < THRESHOLD {
                        e == TxError::AmountTooSmall
                    } else {
                        e == TxError::Other
                    },
                },
            },
    {
        let t = match transfer {
            Some(t) => t,
            None => {
                return Err(TxError::ErrorOperationStyle);
            },
        };
        if self.is_block_used(block_height) {
            return Err(TxError::BlockUsed);
        }
        if !crate::account::bytes_eq(&t.from, beneficiary_ledger_account) {
            return Err(TxError::Unauthorized);
        }
        if !crate::account::bytes_eq(&t.to, own_ledger_account) {
            return Err(TxError::ErrorTo);
        }
        if t.amount < THRESHOLD {
            return Err(TxError::AmountTooSmall);
        }
        let value = t.amount as u128;
        if value > u128::MAX - self.stats.total_supply {
            return Err(TxError::Other);
        }
        self.blocks.insert(block_height);
        self.balances.credit(beneficiary, value);
        self.stats.total_supply = self.stats.total_supply + value;
        self.history_inc();
        Ok(TxRecord::succeeded(caller, Operation::Mint, beneficiary, beneficiary, value, 0, now))
    }

    pub fn is_block_used(&self, block_height: u64) -> (r: bool)
        ensures
            r == self.blocks@.contains(block_height),
    {
        self.blocks.contains(&block_height)
    }
}

} // verus!

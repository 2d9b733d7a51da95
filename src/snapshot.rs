//! The whole ledger, captured before a restart and installed after it.

use std::collections::HashSet;
use vstd::prelude::*;
use crate::ledger::Ledger;
use crate::outbox::TxLog;
use crate::store::{Allowances, AmountMap};
use crate::types::{StatsData, TxRecord};

verus! {

#[derive(Debug)]
pub struct Snapshot {
    pub stats: StatsData,
    pub balances: AmountMap,
    pub allowances: Allowances,
    pub blocks: HashSet<u64>,
    pub tx_log: TxLog,
    pub genesis: TxRecord,
}

pub open spec fn snapshot_of(l: Ledger) -> Snapshot {
    Snapshot {
        stats: l.stats,
        balances: l.balances,
        allowances: l.allowances,
        blocks: l.blocks,
        tx_log: l.tx_log,
        genesis: l.genesis,
    }
}

pub open spec fn restored(s: Snapshot) -> Ledger {
    Ledger {
        stats: s.stats,
        balances: s.balances,
        allowances: s.allowances,
        blocks: s.blocks,
        tx_log: s.tx_log,
        genesis: s.genesis,
    }
}

impl Ledger {
    /// Captures every part of the state, the outbox in its order included.
    pub fn pre_upgrade(self) -> (r: Snapshot)
        ensures
            r == snapshot_of(self),
    {
        Snapshot {
            stats: self.stats,
            balances: self.balances,
            allowances: self.allowances,
            blocks: self.blocks,
            tx_log: self.tx_log,
            genesis: self.genesis,
        }
    }

    /// Installs a captured state in place of the fresh one.
    pub fn post_upgrade(s: Snapshot) -> (r: Ledger)
        ensures
            r == restored(s),
    {
        Ledger {
            stats: s.stats,
            balances: s.balances,
            allowances: s.allowances,
            blocks: s.blocks,
            tx_log: s.tx_log,
            genesis: s.genesis,
        }
    }
}

/// Restoring what was captured gives back the same ledger, field for
/// field, and so a well-formed one.
pub proof fn lemma_restart_round_trip(l: Ledger)
    ensures
        restored(snapshot_of(l)) == l,
        l.wf() ==> restored(snapshot_of(l)).wf(),
{
}

} // verus!

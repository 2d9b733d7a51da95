//! Settings that only the owner may change. A call by anyone else is a
//! fault of the caller: these functions require the owner, and the host
//! aborts the call before reaching them.

use vstd::prelude::*;
use crate::account::Account;
use crate::ledger::Ledger;
use crate::types::{StatsData, TxRecord};

verus! {

impl Ledger {
    /// Only the settings changed, and only as `stats` says.
    pub open spec fn settings_now(&self, o: &Ledger, stats: StatsData) -> bool {
        &&& self.stats == stats
        &&& self.balances == o.balances
        &&& self.rest_same(o)
    }

    /// Whether `caller` is the owner.
    pub fn is_auth(&self, caller: &Account) -> (r: bool)
        ensures
            r == (caller@ == self.stats.owner@),
    {
        caller.same(&self.stats.owner)
    }

    pub fn set_name(&mut self, caller: &Account, name: String)
        requires
            old(self).wf(),
            caller@ == old(self).stats.owner@,
        ensures
            final(self).wf(),
            final(self).settings_now(old(self), (StatsData { name, ..old(self).stats })),
    {
        self.stats.name = name;
    }

    pub fn set_logo(&mut self, caller: &Account, logo: String)
        requires
            old(self).wf(),
            caller@ == old(self).stats.owner@,
        ensures
            final(self).wf(),
            final(self).settings_now(old(self), (StatsData { logo, ..old(self).stats })),
    {
        self.stats.logo = logo;
    }

    pub fn set_fee(&mut self, caller: &Account, fee: u128)
        requires
            old(self).wf(),
            caller@ == old(self).stats.owner@,
        ensures
            final(self).wf(),
            final(self).settings_now(old(self), (StatsData { fee, ..old(self).stats })),
    {
        self.stats.fee = fee;
    }

    pub fn set_fee_to(&mut self, caller: &Account, fee_to: Account)
        requires
            old(self).wf(),
            caller@ == old(self).stats.owner@,
        ensures
            final(self).wf(),
            final(self).settings_now(old(self), (StatsData { fee_to, ..old(self).stats })),
    {
        self.stats.fee_to = fee_to;
    }

    pub fn set_owner(&mut self, caller: &Account, owner: Account)
        requires
            old(self).wf(),
            caller@ == old(self).stats.owner@,
        ensures
            final(self).wf(),
            final(self).settings_now(old(self), (StatsData { owner, ..old(self).stats })),
    {
        self.stats.owner = owner;
    }

    /// The record of the initial mint, for the owner to send to the log again.
    pub fn set_genesis(&self, caller: &Account) -> (r: TxRecord)
        requires
            caller@ == self.stats.owner@,
        ensures
            r@ == self.genesis@,
    {
        self.genesis.duplicate()
    }
}

} // verus!

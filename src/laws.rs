//! What holds of every state that `Ledger::init` and the operations reach:
//! each of them requires and ensures `Ledger::wf`.

use vstd::prelude::*;
use crate::entries::total;
use crate::ledger::Ledger;

verus! {

/// The balances add up to the total supply.
pub proof fn lemma_supply_is_sum_of_balances(l: &Ledger)
    requires
        l.wf(),
    ensures
        total(l.balances.entries@) == l.stats.total_supply as nat,
{
}

/// No balance is zero, no allowance is zero, and no owner is left with an
/// empty table of spenders.
pub proof fn lemma_no_zero_entries(l: &Ledger)
    requires
        l.wf(),
    ensures
        forall|i: int| 0 <= i < l.balances.entries@.len() ==> #[trigger] l.balances.entries@[i].1 > 0,
        forall|i: int|
            0 <= i < l.allowances.entries@.len() ==> (#[trigger] l.allowances.entries@[i]).1.entries@.len()
                > 0,
        forall|i: int, j: int|
            0 <= i < l.allowances.entries@.len() && 0 <= j
                < l.allowances.entries@[i].1.entries@.len() ==> #[trigger] l.allowances.entries@[i].1.entries@[j].1
                > 0,
{
    assert forall|i: int|
        0 <= i < l.allowances.entries@.len() implies (#[trigger] l.allowances.entries@[i]).1.entries@.len()
            > 0 by {
        assert(l.allowances.entries@[i].1.wf());
    }
    assert forall|i: int, j: int|
        0 <= i < l.allowances.entries@.len() && 0 <= j
            < l.allowances.entries@[i].1.entries@.len() implies #[trigger] l.allowances.entries@[i].1.entries@[j].1
            > 0 by {
        assert(l.allowances.entries@[i].1.wf());
    }
}

} // verus!

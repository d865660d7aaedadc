use vstd::prelude::*;

use crate::contract::{balance_in, registered_after_deposit, resolution, Contract, ResolvedTransfer};

verus! {

/// An account with a positive balance is registered.
pub proof fn lemma_balance_needs_registration(c: &Contract, k: Seq<char>)
    ensures
        balance_in(c.balances(), k) > 0 ==> c.balances().contains_key(k),
{
}

/// Registering an account a second time changes nothing: the ledger after two
/// registrations is the ledger after one, and the account holds one entry.
pub proof fn lemma_deposit_idempotent(m: Map<Seq<char>, u128>, k: Seq<char>)
    ensures
        registered_after_deposit(registered_after_deposit(m, k), k) == registered_after_deposit(m, k),
        registered_after_deposit(m, k).contains_key(k),
        registered_after_deposit(m, k).dom() == m.dom().insert(k),
{
    assert(registered_after_deposit(m, k).dom() =~= m.dom().insert(k));
}

/// A transfer-call is resolved once: delivering its resolution again, with
/// whatever outcome, returns `None` and changes nothing.
pub proof fn lemma_resolution_once(
    c1: &Contract,
    c2: &Contract,
    c3: &Contract,
    id: u64,
    first: Option<u128>,
    again: Option<u128>,
    r1: Option<ResolvedTransfer>,
    r2: Option<ResolvedTransfer>,
)
    requires
        resolution(c1, c2, id, first, r1),
        resolution(c2, c3, id, again, r2),
    ensures
        r2 is None,
        *c3 == *c2,
{
}

} // verus!

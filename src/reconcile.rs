use vstd::prelude::*;

verus! {

/// A record's balance once topped up to `minimum`: never lower than before.
pub open spec fn reconciled(balance: nat, minimum: nat) -> nat {
    if balance < minimum {
        minimum
    } else {
        balance
    }
}

/// The lamports that the payer transfers so that a record holding `balance`
/// reaches the rent-exempt `minimum`: the shortfall, or nothing.
pub fn lamports_to_minimum_balance(balance: u64, minimum: u64) -> (r: u64)
    ensures
        balance + r == reconciled(balance as nat, minimum as nat),
        balance >= minimum ==> r == 0,
{
    if balance < minimum {
        minimum - balance
    } else {
        0
    }
}

/// Reconciling twice gives the balance that reconciling once gives; the second
/// top-up transfers nothing.
pub proof fn lemma_reconcile_idempotent(balance: nat, minimum: nat)
    ensures
        reconciled(reconciled(balance, minimum), minimum) == reconciled(balance, minimum),
        reconciled(balance, minimum) >= minimum,
        reconciled(balance, minimum) >= balance,
{
}

} // verus!

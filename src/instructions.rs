use vstd::prelude::*;

use crate::state::ErrorCode;
use crate::vault::{Initialize, Operations};

verus! {

/// Creates the caller's vault state record with target balance `amount`.
pub fn initialize(ctx: &mut Initialize, amount: u64) -> (r: Result<(), ErrorCode>)
    ensures
        (r, *final(ctx)) == old(ctx).init_outcome(amount),
{
    ctx.initialize(amount)
}

/// Deposits `amount` into the caller's vault, sweeping it back when due.
pub fn deposit(ctx: &mut Operations, amount: u64) -> (r: Result<(), ErrorCode>)
    requires
        old(ctx).balances_fit(),
    ensures
        (r, *final(ctx)) == old(ctx).deposit_outcome(amount),
{
    ctx.deposit(amount)
}

/// Withdraws `amount` from the caller's vault.
pub fn withdraw(ctx: &mut Operations, amount: u64) -> (r: Result<(), ErrorCode>)
    requires
        old(ctx).balances_fit(),
    ensures
        (r, *final(ctx)) == old(ctx).withdraw_outcome(amount),
{
    ctx.withdraw(amount)
}

} // verus!

//! The admin sets up the fee vault with nothing collected.

use vstd::prelude::*;

use crate::pubkey::Pubkey;
use crate::state::fee_vault_state::FeeVaultState;

verus! {

/// What the initialize instruction writes of its accounts.
#[derive(Clone, Copy, Debug, PartialEq, Eq)]
pub struct Initialize {
    /// The admin, who signs and pays.
    pub admin: Pubkey,
    /// The fee vault state account, created by this instruction.
    pub fee_vault_state: FeeVaultState,
}

/// The accounts after setting up: the fee vault's total is zero.
pub open spec fn initialize_result(ctx: Initialize) -> Initialize {
    Initialize { fee_vault_state: FeeVaultState { total_collected: 0, ..ctx.fee_vault_state }, ..ctx }
}

/// Sets the fee vault's total to zero.
pub fn initialize_handler(ctx: &mut Initialize)
    ensures
        *final(ctx) == initialize_result(*old(ctx)),
{
    ctx.fee_vault_state.total_collected = 0;
}

} // verus!

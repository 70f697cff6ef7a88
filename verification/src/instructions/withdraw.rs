//! A user withdraws lamports from their vault, up to the vault's limit.

use vstd::prelude::*;

use crate::cpi::LamportTransfer;
use crate::error::VaultError;
use crate::pubkey::Pubkey;
use crate::state::vault_state::VaultState;

verus! {

/// What the withdraw instruction reads of its accounts.
#[derive(Clone, Copy, Debug, PartialEq, Eq)]
pub struct Withdraw {
    /// The user, who signs.
    pub user: Pubkey,
    /// The vault's settings.
    pub vault_state: VaultState,
    /// The bump of the vault's address.
    pub vault_bump: u8,
}

/// Withdraws `amount` lamports: refuses more than the vault's
/// `max_withdraw` with `WithdrawalTooLarge`; else returns the transfer.
pub fn withdraw_lamports(ctx: &Withdraw, amount: u64) -> (r: Result<LamportTransfer, VaultError>)
    ensures
        r == (if amount <= ctx.vault_state.max_withdraw {
            Ok(LamportTransfer { user: ctx.user, vault_bump: ctx.vault_bump, amount })
        } else {
            Err(VaultError::WithdrawalTooLarge)
        }),
{
    if amount <= ctx.vault_state.max_withdraw {
        Ok(LamportTransfer { user: ctx.user, vault_bump: ctx.vault_bump, amount })
    } else {
        Err(VaultError::WithdrawalTooLarge)
    }
}

} // verus!

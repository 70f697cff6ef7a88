//! A user closes their lamport vault: whatever it holds goes back to them.

use vstd::prelude::*;

use crate::cpi::LamportTransfer;
use crate::pubkey::Pubkey;
use crate::state::vault_state::VaultState;

verus! {

/// What the close instruction reads of its accounts.
#[derive(Clone, Copy, Debug, PartialEq, Eq)]
pub struct Close {
    /// The user, who signs.
    pub user: Pubkey,
    /// The vault's settings, closed by this instruction.
    pub vault_state: VaultState,
    /// The lamports the vault holds.
    pub vault_lamports: u64,
    /// The bump of the vault's address.
    pub vault_bump: u8,
}

/// Closes the vault: returns the transfer of its whole balance back to the
/// user, or none when it is empty.
pub fn close_vault(ctx: &Close) -> (r: Option<LamportTransfer>)
    ensures
        r == (if ctx.vault_lamports > 0 {
            Some(LamportTransfer { user: ctx.user, vault_bump: ctx.vault_bump, amount: ctx.vault_lamports })
        } else {
            None::<LamportTransfer>
        }),
{
    let balance = ctx.vault_lamports;
    if balance > 0 {
        Some(LamportTransfer { user: ctx.user, vault_bump: ctx.vault_bump, amount: balance })
    } else {
        None
    }
}

} // verus!

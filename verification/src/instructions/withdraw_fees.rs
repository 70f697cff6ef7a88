//! The admin withdraws collected fees from the fee vault.

use vstd::prelude::*;

use crate::cpi::{Authority, MintRole, TokenAccountRole, TokenTransfer};
use crate::error::FeeVaultError;
use crate::pubkey::Pubkey;
use crate::state::fee_vault_state::FeeVaultState;

verus! {

/// What the withdraw-fees instruction reads and writes of its accounts.
#[derive(Clone, Copy, Debug, PartialEq, Eq)]
pub struct WithdrawFees {
    /// The admin, who signs.
    pub admin: Pubkey,
    /// The decimals of mint B.
    pub mint_b_decimals: u8,
    /// The bookkeeping of the fee vault.
    pub fee_vault_state: FeeVaultState,
    /// The bump of the fee vault state's address.
    pub fee_vault_state_bump: u8,
}

/// The transfer of withdrawing: `amount` from the fee vault to the
/// receiver, signed by the fee vault state.
pub open spec fn withdraw_fees_transfers(ctx: WithdrawFees, amount: u64) -> Seq<TokenTransfer> {
    seq![
        TokenTransfer {
            from: TokenAccountRole::FeeVault,
            to: TokenAccountRole::ReceiverAtaB,
            mint: MintRole::B,
            decimals: ctx.mint_b_decimals,
            amount,
            authority: Authority::FeeVaultState { admin: ctx.admin, bump: ctx.fee_vault_state_bump },
        },
    ]
}

/// Whether `amount` may be withdrawn: no more than the vault's total.
pub open spec fn withdraw_fees_allowed(ctx: WithdrawFees, amount: u64) -> bool {
    amount <= ctx.fee_vault_state.total_collected
}

/// The accounts after withdrawing `amount`: the total is reduced by it.
pub open spec fn withdraw_fees_result(ctx: WithdrawFees, amount: u64) -> WithdrawFees {
    WithdrawFees {
        fee_vault_state: FeeVaultState {
            total_collected: (ctx.fee_vault_state.total_collected - amount) as u64,
            ..ctx.fee_vault_state
        },
        ..ctx
    }
}

/// Withdraws `amount` of fees: refuses more than the vault's total with
/// `WithdrawalTooLarge`; else returns the transfer to make and takes
/// `amount` off the total.
pub fn wtihdraw_fees_handler(ctx: &mut WithdrawFees, amount: u64) -> (r: Result<
    Vec<TokenTransfer>,
    FeeVaultError,
>)
    ensures
        r is Ok <==> withdraw_fees_allowed(*old(ctx), amount),
        r matches Ok(transfers) ==> transfers@ == withdraw_fees_transfers(*old(ctx), amount)
            && *final(ctx) == withdraw_fees_result(*old(ctx), amount),
        r matches Err(e) ==> e == FeeVaultError::WithdrawalTooLarge && *final(ctx) == *old(ctx),
{
    if amount > ctx.fee_vault_state.total_collected {
        return Err(FeeVaultError::WithdrawalTooLarge);
    }
    let mut transfers: Vec<TokenTransfer> = Vec::new();
    transfers.push(
        TokenTransfer {
            from: TokenAccountRole::FeeVault,
            to: TokenAccountRole::ReceiverAtaB,
            mint: MintRole::B,
            decimals: ctx.mint_b_decimals,
            amount,
            authority: Authority::FeeVaultState { admin: ctx.admin, bump: ctx.fee_vault_state_bump },
        },
    );
    ctx.fee_vault_state.total_collected = ctx.fee_vault_state.total_collected - amount;
    proof {
        assert(transfers@ =~= withdraw_fees_transfers(*old(ctx), amount));
    }
    Ok(transfers)
}

} // verus!

//! The maker takes back the deposit of an escrow that nobody took, once
//! `CANCEL_DELAY` seconds have passed since it was made.

use vstd::prelude::*;

use crate::constants::CANCEL_DELAY;
use crate::cpi::{Authority, MintRole, TokenAccountRole, TokenTransfer};
use crate::error::EscrowError;
use crate::pubkey::Pubkey;
use crate::state::escrow_state::EscrowState;

verus! {

/// What the cancel instruction reads of its accounts.
#[derive(Clone, Copy, Debug, PartialEq, Eq)]
pub struct Cancel {
    /// The maker, who signs.
    pub maker: Pubkey,
    /// The decimals of mint A.
    pub mint_a_decimals: u8,
    /// The escrow being cancelled.
    pub escrow_state: EscrowState,
    /// The bump of the escrow state's address.
    pub escrow_state_bump: u8,
}

/// Whether an escrow may be cancelled at time `now`.
pub open spec fn cancel_allowed(escrow_state: EscrowState, now: i64) -> bool {
    now - escrow_state.created_at >= CANCEL_DELAY
}

/// The inputs on which the elapsed time can be computed in 64 bits.
pub open spec fn cancel_elapsed_fits(escrow_state: EscrowState, now: i64) -> bool {
    i64::MIN <= now - escrow_state.created_at <= i64::MAX
}

/// Whether the time elapsed since the escrow was made can be computed in 64
/// bits at `now`; where it cannot, cancelling stops on the overflow.
pub fn elapsed_fits(escrow_state: &EscrowState, now: i64) -> (ok: bool)
    ensures
        ok == cancel_elapsed_fits(*escrow_state, now),
{
    now.checked_sub(escrow_state.created_at).is_some()
}

/// The transfer of cancelling: the deposit from the escrow's vault back to
/// the maker, signed by the escrow.
pub open spec fn cancel_transfers(ctx: Cancel, seed: u16) -> Seq<TokenTransfer> {
    seq![
        TokenTransfer {
            from: TokenAccountRole::TemporaryVault,
            to: TokenAccountRole::MakerAtaA,
            mint: MintRole::A,
            decimals: ctx.mint_a_decimals,
            amount: ctx.escrow_state.a_amount,
            authority: Authority::EscrowState { seed, maker: ctx.maker, bump: ctx.escrow_state_bump },
        },
    ]
}

/// Cancels the escrow at time `now`: returns the refund to make, or
/// `TooEarlyToCancel` when less than `CANCEL_DELAY` seconds have passed
/// since the escrow was made.
pub fn cancel_handler(ctx: &Cancel, seed: u16, now: i64) -> (r: Result<Vec<TokenTransfer>, EscrowError>)
    requires
        cancel_elapsed_fits(ctx.escrow_state, now),
    ensures
        r is Ok <==> cancel_allowed(ctx.escrow_state, now),
        r matches Ok(transfers) ==> transfers@ == cancel_transfers(*ctx, seed),
        r matches Err(e) ==> e == EscrowError::TooEarlyToCancel,
{
    if now - ctx.escrow_state.created_at < CANCEL_DELAY {
        return Err(EscrowError::TooEarlyToCancel);
    }
    let mut transfers: Vec<TokenTransfer> = Vec::new();
    transfers.push(
        TokenTransfer {
            from: TokenAccountRole::TemporaryVault,
            to: TokenAccountRole::MakerAtaA,
            mint: MintRole::A,
            decimals: ctx.mint_a_decimals,
            amount: ctx.escrow_state.a_amount,
            authority: Authority::EscrowState { seed, maker: ctx.maker, bump: ctx.escrow_state_bump },
        },
    );
    proof {
        assert(transfers@ =~= cancel_transfers(*ctx, seed));
    }
    Ok(transfers)
}

} // verus!

//! A taker accepts an escrow: pays its price in mint B, of which the fee goes
//! to the fee account at the admin address and the rest to the maker, and receives the maker's
//! deposit in mint A.

use vstd::prelude::*;

use crate::constants::BPS_DENOMINATOR;
use crate::cpi::{Authority, MintRole, TokenAccountRole, TokenTransfer};
use crate::state::escrow_state::EscrowState;
use crate::state::fee_vault_state::FeeVaultState;

verus! {

/// What the take instruction reads and writes of its accounts.
#[derive(Clone, Copy, Debug, PartialEq, Eq)]
pub struct Take {
    /// The escrow being taken.
    pub escrow_state: EscrowState,
    /// The bump of the escrow state's address.
    pub escrow_state_bump: u8,
    /// The decimals of mint A.
    pub mint_a_decimals: u8,
    /// The decimals of mint B.
    pub mint_b_decimals: u8,
    /// The bookkeeping of the fee vault.
    pub fee_vault_state: FeeVaultState,
}

/// The fee on a price of `b_amount` at `fees_bps` basis points, rounded down
/// and cut to 64 bits.
pub open spec fn take_fee(b_amount: u64, fees_bps: u16) -> u64 {
    (b_amount as int * fees_bps as int / BPS_DENOMINATOR as int) as u64
}

/// The fee of the escrow that `ctx` takes.
pub open spec fn take_fee_of(ctx: Take) -> u64 {
    take_fee(ctx.escrow_state.b_amount, ctx.escrow_state.fees_bps)
}

/// The inputs on which taking runs to the end: the fee is no more than the
/// price, and the fee vault's total can hold the fee.
pub open spec fn take_succeeds(ctx: Take) -> bool {
    &&& take_fee_of(ctx) <= ctx.escrow_state.b_amount
    &&& ctx.fee_vault_state.total_collected + take_fee_of(ctx) <= u64::MAX
}

/// The transfers of taking, in order: the fee from the taker to the fee
/// account at the admin address, the rest of the price from the taker to the maker, and the
/// deposit from the escrow's vault to the taker, signed by the escrow.
pub open spec fn take_transfers(ctx: Take, seed: u16) -> Seq<TokenTransfer> {
    let fee = take_fee_of(ctx);
    seq![
        TokenTransfer {
            from: TokenAccountRole::TakerAtaB,
            to: TokenAccountRole::AdminFeeAccount,
            mint: MintRole::B,
            decimals: ctx.mint_b_decimals,
            amount: fee,
            authority: Authority::Taker,
        },
        TokenTransfer {
            from: TokenAccountRole::TakerAtaB,
            to: TokenAccountRole::MakerAtaB,
            mint: MintRole::B,
            decimals: ctx.mint_b_decimals,
            amount: (ctx.escrow_state.b_amount - fee) as u64,
            authority: Authority::Taker,
        },
        TokenTransfer {
            from: TokenAccountRole::TemporaryVault,
            to: TokenAccountRole::TakerAtaA,
            mint: MintRole::A,
            decimals: ctx.mint_a_decimals,
            amount: ctx.escrow_state.a_amount,
            authority: Authority::EscrowState {
                seed,
                maker: ctx.escrow_state.maker,
                bump: ctx.escrow_state_bump,
            },
        },
    ]
}

/// The accounts after taking: the fee is added to the fee vault's total.
pub open spec fn take_result(ctx: Take) -> Take {
    Take {
        fee_vault_state: FeeVaultState {
            total_collected: (ctx.fee_vault_state.total_collected + take_fee_of(ctx)) as u64,
            ..ctx.fee_vault_state
        },
        ..ctx
    }
}

/// The fee on a price of `b_amount` at `fees_bps` basis points, rounded down
/// and cut to 64 bits, as taking computes it.
pub fn compute_take_fee(b_amount: u64, fees_bps: u16) -> (fee: u64)
    ensures
        fee == take_fee(b_amount, fees_bps),
{
    proof {
        assert((b_amount as int) * (fees_bps as int) <= 0xffff_ffff_ffff_ffff * 0xffff)
            by (nonlinear_arith)
            requires
                b_amount <= 0xffff_ffff_ffff_ffffu64,
                fees_bps <= 0xffffu16,
        ;
    }
    let product: u128 = (b_amount as u128) * (fees_bps as u128);
    (product / (BPS_DENOMINATOR as u128)) as u64
}

/// Whether taking runs to the end on these accounts; where it does not,
/// taking stops on an overflow.
pub fn can_take(ctx: &Take) -> (ok: bool)
    ensures
        ok == take_succeeds(*ctx),
{
    let fee_amount = compute_take_fee(ctx.escrow_state.b_amount, ctx.escrow_state.fees_bps);
    fee_amount <= ctx.escrow_state.b_amount
        && ctx.fee_vault_state.total_collected.checked_add(fee_amount).is_some()
}

/// Takes the escrow: returns the transfers to make, in order, and adds the
/// fee to the fee vault's total.
pub fn take_handler(ctx: &mut Take, seed: u16) -> (transfers: Vec<TokenTransfer>)
    requires
        take_succeeds(*old(ctx)),
    ensures
        transfers@ == take_transfers(*old(ctx), seed),
        *final(ctx) == take_result(*old(ctx)),
{
    let b_amount = ctx.escrow_state.b_amount;
    let fee_amount = compute_take_fee(b_amount, ctx.escrow_state.fees_bps);
    let remain_amount: u64 = b_amount - fee_amount;

    let mut transfers: Vec<TokenTransfer> = Vec::new();
    transfers.push(
        TokenTransfer {
            from: TokenAccountRole::TakerAtaB,
            to: TokenAccountRole::AdminFeeAccount,
            mint: MintRole::B,
            decimals: ctx.mint_b_decimals,
            amount: fee_amount,
            authority: Authority::Taker,
        },
    );
    transfers.push(
        TokenTransfer {
            from: TokenAccountRole::TakerAtaB,
            to: TokenAccountRole::MakerAtaB,
            mint: MintRole::B,
            decimals: ctx.mint_b_decimals,
            amount: remain_amount,
            authority: Authority::Taker,
        },
    );
    transfers.push(
        TokenTransfer {
            from: TokenAccountRole::TemporaryVault,
            to: TokenAccountRole::TakerAtaA,
            mint: MintRole::A,
            decimals: ctx.mint_a_decimals,
            amount: ctx.escrow_state.a_amount,
            authority: Authority::EscrowState {
                seed,
                maker: ctx.escrow_state.maker,
                bump: ctx.escrow_state_bump,
            },
        },
    );
    ctx.fee_vault_state.total_collected = ctx.fee_vault_state.total_collected + fee_amount;
    proof {
        assert(transfers@ =~= take_transfers(*old(ctx), seed));
    }
    transfers
}

} // verus!

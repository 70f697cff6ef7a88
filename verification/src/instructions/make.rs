//! A maker opens an escrow: records the offer and deposits `a_amount` of
//! mint A in the escrow's vault.

use vstd::prelude::*;

use crate::cpi::{Authority, MintRole, TokenAccountRole, TokenTransfer};
use crate::pubkey::Pubkey;
use crate::state::escrow_state::EscrowState;

verus! {

/// What the make instruction reads and writes of its accounts.
#[derive(Clone, Copy, Debug, PartialEq, Eq)]
pub struct Make {
    /// The maker, who signs and pays.
    pub maker: Pubkey,
    /// The mint the maker deposits.
    pub mint_a: Pubkey,
    /// The decimals of mint A.
    pub mint_a_decimals: u8,
    /// The mint the maker asks for.
    pub mint_b: Pubkey,
    /// The escrow state account, created by this instruction.
    pub escrow_state: EscrowState,
    /// The bump of the escrow state's address.
    pub escrow_state_bump: u8,
}

/// The escrow that making records.
pub open spec fn made_escrow_state(
    ctx: Make,
    seed: u16,
    a_amount: u64,
    b_amount: u64,
    fee_bps: u16,
    now: i64,
) -> EscrowState {
    EscrowState {
        maker: ctx.maker,
        mint_a: ctx.mint_a,
        mint_b: ctx.mint_b,
        a_amount,
        b_amount,
        created_at: now,
        fees_bps: fee_bps,
        seed,
        bump: ctx.escrow_state_bump,
    }
}

/// The transfer of making: the deposit from the maker to the escrow's vault.
pub open spec fn make_transfers(ctx: Make, a_amount: u64) -> Seq<TokenTransfer> {
    seq![
        TokenTransfer {
            from: TokenAccountRole::MakerAtaA,
            to: TokenAccountRole::TemporaryVault,
            mint: MintRole::A,
            decimals: ctx.mint_a_decimals,
            amount: a_amount,
            authority: Authority::Maker,
        },
    ]
}

/// Makes an escrow at time `now`: records it and returns the deposit to make.
pub fn make_handler(
    ctx: &mut Make,
    seed: u16,
    a_amount: u64,
    b_amount: u64,
    fee_bps: u16,
    now: i64,
) -> (transfers: Vec<TokenTransfer>)
    ensures
        *final(ctx) == (Make {
            escrow_state: made_escrow_state(*old(ctx), seed, a_amount, b_amount, fee_bps, now),
            ..*old(ctx)
        }),
        transfers@ == make_transfers(*old(ctx), a_amount),
{
    ctx.escrow_state = EscrowState {
        maker: ctx.maker,
        mint_a: ctx.mint_a,
        mint_b: ctx.mint_b,
        a_amount,
        b_amount,
        created_at: now,
        fees_bps: fee_bps,
        seed,
        bump: ctx.escrow_state_bump,
    };
    let mut transfers: Vec<TokenTransfer> = Vec::new();
    transfers.push(
        TokenTransfer {
            from: TokenAccountRole::MakerAtaA,
            to: TokenAccountRole::TemporaryVault,
            mint: MintRole::A,
            decimals: ctx.mint_a_decimals,
            amount: a_amount,
            authority: Authority::Maker,
        },
    );
    proof {
        assert(transfers@ =~= make_transfers(*old(ctx), a_amount));
    }
    transfers
}

} // verus!

//! A maker opens an escrow of the `Escrow` kind: both amounts must be
//! positive; the offer is recorded and `amount_a` of mint A is deposited in
//! the escrow's vault.

use vstd::prelude::*;

use crate::cpi::{Authority, MintRole, TokenAccountRole, TokenTransfer};
use crate::error::EscrowError;
use crate::pubkey::Pubkey;
use crate::state::escrow::Escrow;

verus! {

/// What this make instruction reads and writes of its accounts.
#[derive(Clone, Copy, Debug, PartialEq, Eq)]
pub struct Make {
    /// The maker, who signs and pays.
    pub maker: Pubkey,
    /// The escrow account, created by this instruction.
    pub escrow: Escrow,
    /// The bump of the escrow's address.
    pub escrow_bump: u8,
    /// The mint the maker deposits.
    pub mint_a: Pubkey,
    /// The decimals of mint A.
    pub mint_a_decimals: u8,
    /// The mint the maker asks for.
    pub mint_b: Pubkey,
    /// The escrow's vault for mint A.
    pub vault_a: Pubkey,
}

/// The escrow that making records.
pub open spec fn made_escrow(ctx: Make, seed: u16, amount_a: u64, amount_b: u64, now: i64) -> Escrow {
    Escrow {
        maker: ctx.maker,
        vault_authority: ctx.maker,
        vault_pda: ctx.vault_a,
        mint_a: ctx.mint_a,
        mint_b: ctx.mint_b,
        amount_a,
        amount_b,
        seed,
        bump: ctx.escrow_bump,
        timestamp: now,
    }
}

/// The transfer of making: the deposit from the maker to the escrow's vault.
pub open spec fn make_escrow_transfers(ctx: Make, amount_a: u64) -> Seq<TokenTransfer> {
    seq![
        TokenTransfer {
            from: TokenAccountRole::MakerAtaA,
            to: TokenAccountRole::TemporaryVault,
            mint: MintRole::A,
            decimals: ctx.mint_a_decimals,
            amount: amount_a,
            authority: Authority::Maker,
        },
    ]
}

/// Makes an escrow at time `now`: refuses zero amounts with `InvalidAmount`,
/// else records the escrow and returns the deposit to make.
pub fn make_handler(ctx: &mut Make, seed: u16, amount_a: u64, amount_b: u64, now: i64) -> (r: Result<
    Vec<TokenTransfer>,
    EscrowError,
>)
    ensures
        r is Ok <==> amount_a > 0 && amount_b > 0,
        r matches Ok(transfers) ==> transfers@ == make_escrow_transfers(*old(ctx), amount_a)
            && *final(ctx) == (Make {
            escrow: made_escrow(*old(ctx), seed, amount_a, amount_b, now),
            ..*old(ctx)
        }),
        r matches Err(e) ==> e == EscrowError::InvalidAmount && *final(ctx) == *old(ctx),
{
    if !(amount_a > 0 && amount_b > 0) {
        return Err(EscrowError::InvalidAmount);
    }
    ctx.escrow = Escrow {
        maker: ctx.maker,
        vault_authority: ctx.maker,
        vault_pda: ctx.vault_a,
        mint_a: ctx.mint_a,
        mint_b: ctx.mint_b,
        amount_a,
        amount_b,
        seed,
        bump: ctx.escrow_bump,
        timestamp: now,
    };
    let mut transfers: Vec<TokenTransfer> = Vec::new();
    transfers.push(
        TokenTransfer {
            from: TokenAccountRole::MakerAtaA,
            to: TokenAccountRole::TemporaryVault,
            mint: MintRole::A,
            decimals: ctx.mint_a_decimals,
            amount: amount_a,
            authority: Authority::Maker,
        },
    );
    proof {
        assert(transfers@ =~= make_escrow_transfers(*old(ctx), amount_a));
    }
    Ok(transfers)
}

} // verus!

//! What each instruction does, stated over its inputs: which transfers it
//! asks for, with which amounts, decimals and signers, and what it records.

use vstd::prelude::*;

use crate::constants::{BPS_DENOMINATOR, CANCEL_DELAY, ESCROW_SEED, MAX_BPS, VAULT_SEED, VAULT_STATE};
use crate::cpi::{vault_seeds, Authority, MintRole, TokenAccountRole, TokenTransfer};
use crate::instructions::cancel::{cancel_allowed, cancel_elapsed_fits, cancel_transfers, Cancel};
use crate::instructions::initialize::{initialize_result, Initialize};
use crate::instructions::make::{made_escrow_state, make_transfers, Make};
use crate::instructions::make_escrow;
use crate::instructions::take::{take_fee_of, take_result, take_succeeds, take_transfers, Take};
use crate::instructions::withdraw_fees::{
    withdraw_fees_allowed, withdraw_fees_result, withdraw_fees_transfers, WithdrawFees,
};
use crate::pubkey::Pubkey;
use crate::state::escrow_state::EscrowState;

verus! {

/// Every transfer of the list carries the decimals of the mint it moves.
pub open spec fn decimals_match(transfers: Seq<TokenTransfer>, mint_a_decimals: u8, mint_b_decimals: u8) -> bool {
    forall|i: int|
        0 <= i < transfers.len() ==> (#[trigger] transfers[i]).decimals == match transfers[i].mint {
            MintRole::A => mint_a_decimals,
            MintRole::B => mint_b_decimals,
        }
}

/// Taking asks for three transfers. The first two, in mint B and signed by
/// the taker, split the price between the fee account at the admin address
/// and the maker; the fee is the price times the rate rounded down whenever
/// the rate is at most the whole. The third releases the deposit in mint A
/// from the escrow's vault to the taker, signed by the escrow with the given
/// seed, the escrow's maker and the escrow's bump. Every transfer carries its
/// mint's decimals, and the fee vault's total grows by the fee, all else of
/// the accounts unchanged.
pub proof fn law_take_pays_and_releases(ctx: Take, seed: u16)
    requires
        take_succeeds(ctx),
    ensures
        ({
            let ts = take_transfers(ctx, seed);
            &&& ts.len() == 3
            &&& decimals_match(ts, ctx.mint_a_decimals, ctx.mint_b_decimals)
            &&& ts[0].from == TokenAccountRole::TakerAtaB && ts[0].to == TokenAccountRole::AdminFeeAccount
            &&& ts[1].from == TokenAccountRole::TakerAtaB && ts[1].to == TokenAccountRole::MakerAtaB
            &&& ts[0].mint == MintRole::B && ts[1].mint == MintRole::B
            &&& ts[0].authority == Authority::Taker && ts[1].authority == Authority::Taker
            &&& ts[0].amount + ts[1].amount == ctx.escrow_state.b_amount
            &&& ctx.escrow_state.fees_bps <= BPS_DENOMINATOR ==> {
                &&& ts[0].amount * BPS_DENOMINATOR <= ctx.escrow_state.b_amount * ctx.escrow_state.fees_bps
                &&& ctx.escrow_state.b_amount * ctx.escrow_state.fees_bps < (ts[0].amount + 1)
                    * BPS_DENOMINATOR
            }
            &&& ts[2].from == TokenAccountRole::TemporaryVault && ts[2].to == TokenAccountRole::TakerAtaA
            &&& ts[2].mint == MintRole::A
            &&& ts[2].amount == ctx.escrow_state.a_amount
            &&& ts[2].authority == Authority::EscrowState {
                seed,
                maker: ctx.escrow_state.maker,
                bump: ctx.escrow_state_bump,
            }
            &&& take_result(ctx).fee_vault_state.total_collected == ctx.fee_vault_state.total_collected
                + ts[0].amount
            &&& take_result(ctx).fee_vault_state.admin == ctx.fee_vault_state.admin
            &&& take_result(ctx).fee_vault_state.bump == ctx.fee_vault_state.bump
            &&& take_result(ctx).escrow_state == ctx.escrow_state
            &&& take_result(ctx).escrow_state_bump == ctx.escrow_state_bump
            &&& take_result(ctx).mint_a_decimals == ctx.mint_a_decimals
            &&& take_result(ctx).mint_b_decimals == ctx.mint_b_decimals
        }),
{
    let b = ctx.escrow_state.b_amount as int;
    let bps = ctx.escrow_state.fees_bps as int;
    if bps <= 10000 {
        let q = b * bps / 10000;
        vstd::arithmetic::div_mod::lemma_fundamental_div_mod(b * bps, 10000);
        assert(0 <= (b * bps) % 10000 < 10000);
        assert(0 <= q <= b) by (nonlinear_arith)
            requires
                b * bps == 10000 * q + (b * bps) % 10000,
                0 <= (b * bps) % 10000 < 10000,
                0 <= b,
                0 <= bps <= 10000,
        ;
        assert(take_fee_of(ctx) as int == q);
    }
}

/// Cancelling asks for one transfer: the deposit, in mint A with mint A's
/// decimals, from the escrow's vault back to the maker's account, signed by
/// the escrow with the given seed, the signing maker and the escrow's bump.
pub proof fn law_cancel_refunds_deposit(ctx: Cancel, seed: u16)
    ensures
        ({
            let ts = cancel_transfers(ctx, seed);
            &&& ts.len() == 1
            &&& decimals_match(ts, ctx.mint_a_decimals, 0)
            &&& ts[0].from == TokenAccountRole::TemporaryVault
            &&& ts[0].to == TokenAccountRole::MakerAtaA
            &&& ts[0].mint == MintRole::A
            &&& ts[0].decimals == ctx.mint_a_decimals
            &&& ts[0].amount == ctx.escrow_state.a_amount
            &&& ts[0].authority == Authority::EscrowState {
                seed,
                maker: ctx.maker,
                bump: ctx.escrow_state_bump,
            }
        }),
{
}

/// Making records the offer exactly as given: the maker, both mints and the
/// bump from the accounts, the amounts, rate, seed and time from the call.
/// It asks for one transfer: the deposit, in mint A with mint A's decimals,
/// from the maker to the escrow's vault, signed by the maker.
pub proof fn law_make_records_offer(
    ctx: Make,
    seed: u16,
    a_amount: u64,
    b_amount: u64,
    fee_bps: u16,
    now: i64,
)
    ensures
        ({
            let e = made_escrow_state(ctx, seed, a_amount, b_amount, fee_bps, now);
            let ts = make_transfers(ctx, a_amount);
            &&& e.maker == ctx.maker
            &&& e.mint_a == ctx.mint_a
            &&& e.mint_b == ctx.mint_b
            &&& e.a_amount == a_amount
            &&& e.b_amount == b_amount
            &&& e.created_at == now
            &&& e.fees_bps == fee_bps
            &&& e.seed == seed
            &&& e.bump == ctx.escrow_state_bump
            &&& ts.len() == 1
            &&& decimals_match(ts, ctx.mint_a_decimals, 0)
            &&& ts[0].from == TokenAccountRole::MakerAtaA
            &&& ts[0].to == TokenAccountRole::TemporaryVault
            &&& ts[0].mint == MintRole::A
            &&& ts[0].amount == a_amount
            &&& ts[0].authority == Authority::Maker
        }),
{
}

/// Making an escrow of the `Escrow` kind records the offer exactly as given:
/// the maker as both maker and vault authority, the vault, both mints and
/// the bump from the accounts, the amounts, seed and time from the call. It
/// asks for one transfer: the deposit, in mint A with mint A's decimals, from
/// the maker to the escrow's vault, signed by the maker.
pub proof fn law_make_escrow_records_offer(
    ctx: make_escrow::Make,
    seed: u16,
    amount_a: u64,
    amount_b: u64,
    now: i64,
)
    ensures
        ({
            let e = make_escrow::made_escrow(ctx, seed, amount_a, amount_b, now);
            let ts = make_escrow::make_escrow_transfers(ctx, amount_a);
            &&& e.maker == ctx.maker
            &&& e.vault_authority == ctx.maker
            &&& e.vault_pda == ctx.vault_a
            &&& e.mint_a == ctx.mint_a
            &&& e.mint_b == ctx.mint_b
            &&& e.amount_a == amount_a
            &&& e.amount_b == amount_b
            &&& e.seed == seed
            &&& e.bump == ctx.escrow_bump
            &&& e.timestamp == now
            &&& ts.len() == 1
            &&& decimals_match(ts, ctx.mint_a_decimals, 0)
            &&& ts[0].from == TokenAccountRole::MakerAtaA
            &&& ts[0].to == TokenAccountRole::TemporaryVault
            &&& ts[0].mint == MintRole::A
            &&& ts[0].amount == amount_a
            &&& ts[0].authority == Authority::Maker
        }),
{
}

/// Withdrawing fees asks for one transfer of exactly the amount, in mint B
/// with mint B's decimals, from the fee vault to the receiver, signed by the
/// fee vault state with the signing admin's key and the state's bump,
/// whatever admin the stored state names; the total falls by the amount and
/// nothing else of the accounts changes.
pub proof fn law_withdraw_fees_signed_by_admin(ctx: WithdrawFees, amount: u64)
    requires
        withdraw_fees_allowed(ctx, amount),
    ensures
        ({
            let ts = withdraw_fees_transfers(ctx, amount);
            let after = withdraw_fees_result(ctx, amount);
            &&& ts.len() == 1
            &&& decimals_match(ts, 0, ctx.mint_b_decimals)
            &&& ts[0].from == TokenAccountRole::FeeVault
            &&& ts[0].to == TokenAccountRole::ReceiverAtaB
            &&& ts[0].mint == MintRole::B
            &&& ts[0].amount == amount
            &&& ts[0].authority == Authority::FeeVaultState { admin: ctx.admin, bump: ctx.fee_vault_state_bump }
            &&& after.fee_vault_state.total_collected + amount == ctx.fee_vault_state.total_collected
            &&& after.fee_vault_state.admin == ctx.fee_vault_state.admin
            &&& after.fee_vault_state.bump == ctx.fee_vault_state.bump
            &&& after.admin == ctx.admin
            &&& after.mint_b_decimals == ctx.mint_b_decimals
            &&& after.fee_vault_state_bump == ctx.fee_vault_state_bump
        }),
{
}

/// Setting up the fee vault zeroes its total and changes nothing else.
pub proof fn law_initialize_zeroes_total(ctx: Initialize)
    ensures
        initialize_result(ctx).fee_vault_state.total_collected == 0,
        initialize_result(ctx).fee_vault_state.admin == ctx.fee_vault_state.admin,
        initialize_result(ctx).fee_vault_state.bump == ctx.fee_vault_state.bump,
        initialize_result(ctx).admin == ctx.admin,
{
}

/// A program-owned signer signs with its prefix, its own key material and its
/// bump: an escrow with the "escrow" prefix, the seed as two little-endian
/// bytes, the maker's 32 bytes and the bump; the fee vault state with the
/// "vault_state" prefix, the admin's 32 bytes and the bump; a lamport vault
/// with the "vault" prefix, the user's 32 bytes and the bump. The maker and
/// the taker sign the transaction themselves and need no seeds.
pub proof fn law_signer_seeds_layout(seed: u16, key: Pubkey, bump: u8)
    ensures
        ({
            let s = (Authority::EscrowState { seed, maker: key, bump }).seeds();
            &&& s.len() == 4
            &&& s[0] == ESCROW_SEED@
            &&& s[1].len() == 2
            &&& s[1][0] + 256 * s[1][1] == seed
            &&& s[2] == key.bytes@
            &&& s[3] == seq![bump]
        }),
        ({
            let s = (Authority::FeeVaultState { admin: key, bump }).seeds();
            &&& s.len() == 3
            &&& s[0] == VAULT_STATE@
            &&& s[1] == key.bytes@
            &&& s[2] == seq![bump]
        }),
        ({
            let s = vault_seeds(key, bump);
            &&& s.len() == 3
            &&& s[0] == VAULT_SEED@
            &&& s[1] == key.bytes@
            &&& s[2] == seq![bump]
        }),
        Authority::Maker.seeds().len() == 0,
        Authority::Taker.seeds().len() == 0,
{
}

/// A fee is accepted exactly when it is at most `MAX_BPS` basis points.
pub proof fn law_fee_limit(escrow_state: EscrowState)
    ensures
        escrow_state.fee_is_valid() <==> escrow_state.fees_bps <= MAX_BPS,
{
}

/// An escrow may be cancelled exactly from `CANCEL_DELAY` seconds after it
/// was made on, and the time since it was made can be computed exactly when
/// it lies within the range of an `i64`.
pub proof fn law_cancel_timing(escrow_state: EscrowState, now: i64)
    ensures
        cancel_allowed(escrow_state, now) <==> now >= escrow_state.created_at + CANCEL_DELAY,
        cancel_elapsed_fits(escrow_state, now) <==> i64::MIN <= now - escrow_state.created_at
            <= i64::MAX,
{
}

/// Taking runs to the end whenever the escrow's fee is within `MAX_BPS` and
/// the fee vault's total has room for the fee; and whenever it runs to the
/// end, the fee is within the price and the new total fits.
pub proof fn law_take_completes(ctx: Take)
    ensures
        ctx.escrow_state.fees_bps <= MAX_BPS && ctx.fee_vault_state.total_collected
            + ctx.escrow_state.b_amount * ctx.escrow_state.fees_bps / BPS_DENOMINATOR as int
            <= u64::MAX ==> take_succeeds(ctx),
        take_succeeds(ctx) ==> take_fee_of(ctx) <= ctx.escrow_state.b_amount
            && ctx.fee_vault_state.total_collected + take_fee_of(ctx) <= u64::MAX,
{
    let b = ctx.escrow_state.b_amount as int;
    let bps = ctx.escrow_state.fees_bps as int;
    if bps <= 1000 {
        let q = b * bps / 10000;
        vstd::arithmetic::div_mod::lemma_fundamental_div_mod(b * bps, 10000);
        assert(0 <= (b * bps) % 10000 < 10000);
        assert(0 <= q <= b) by (nonlinear_arith)
            requires
                b * bps == 10000 * q + (b * bps) % 10000,
                0 <= (b * bps) % 10000 < 10000,
                0 <= b,
                0 <= bps <= 1000,
        ;
        assert(take_fee_of(ctx) as int == q);
    }
}

/// A fee withdrawal is allowed exactly when it is no more than the total.
pub proof fn law_withdraw_fees_limit(ctx: WithdrawFees, amount: u64)
    ensures
        withdraw_fees_allowed(ctx, amount) <==> amount <= ctx.fee_vault_state.total_collected,
{
}

} // verus!

//! Properties of the program that span its instructions.

use vstd::prelude::*;

use crate::constants::{BPS_DENOMINATOR, CANCEL_DELAY, MAX_BPS};
use crate::cpi::{MintRole, TokenAccountRole, TokenTransfer};
use crate::instructions::cancel::{cancel_allowed, cancel_transfers, Cancel};
use crate::instructions::make::{made_escrow_state, make_transfers, Make};
use crate::instructions::take::{take_fee, take_fee_of, take_result, take_succeeds, take_transfers, Take};
use crate::instructions::withdraw_fees::{
    withdraw_fees_allowed, withdraw_fees_result, withdraw_fees_transfers, WithdrawFees,
};
use crate::ledger::{all_well_formed, lemma_net_flow_append, net_flow, role_mint};
use crate::state::escrow_state::EscrowState;
use crate::state::fee_vault_state::FeeVaultState;

verus! {

/// The change that a list of transfers makes to the sum of the balances of
/// all the accounts of one mint.
pub open spec fn mint_net_flow(transfers: Seq<TokenTransfer>, mint: MintRole) -> int {
    match mint {
        MintRole::A => net_flow(transfers, TokenAccountRole::MakerAtaA) + net_flow(
            transfers,
            TokenAccountRole::TemporaryVault,
        ) + net_flow(transfers, TokenAccountRole::TakerAtaA),
        MintRole::B => net_flow(transfers, TokenAccountRole::MakerAtaB) + net_flow(
            transfers,
            TokenAccountRole::TakerAtaB,
        ) + net_flow(transfers, TokenAccountRole::FeeVault) + net_flow(
            transfers,
            TokenAccountRole::AdminFeeAccount,
        ) + net_flow(transfers, TokenAccountRole::ReceiverAtaB),
    }
}

/// Well-formed transfers neither create nor destroy tokens: the accounts of
/// each mint hold together as much after them as before.
pub proof fn law_transfers_conserve_each_mint(transfers: Seq<TokenTransfer>, mint: MintRole)
    requires
        all_well_formed(transfers),
    ensures
        mint_net_flow(transfers, mint) == 0,
    decreases transfers.len(),
{
    if transfers.len() > 0 {
        let rest = transfers.drop_last();
        assert(all_well_formed(rest)) by {
            assert forall|i: int| 0 <= i < rest.len() implies crate::ledger::transfer_well_formed(
                #[trigger] rest[i],
            ) by {
                assert(rest[i] == transfers[i]);
            }
        }
        law_transfers_conserve_each_mint(rest, mint);
        let t = transfers.last();
        assert(crate::ledger::transfer_well_formed(transfers[transfers.len() - 1]));
        assert(role_mint(t.from) == t.mint && role_mint(t.to) == t.mint && t.from != t.to);
    }
}

/// A fee within `MAX_BPS` is exactly the price times the rate, rounded
/// down, and at most a tenth of the price; so taking such an escrow never
/// charges more than its price.
pub proof fn law_valid_fee_is_at_most_a_tenth(escrow_state: EscrowState)
    requires
        escrow_state.fee_is_valid(),
    ensures
        take_fee(escrow_state.b_amount, escrow_state.fees_bps) as int == escrow_state.b_amount as int
            * escrow_state.fees_bps as int / BPS_DENOMINATOR as int,
        take_fee(escrow_state.b_amount, escrow_state.fees_bps) * 10 <= escrow_state.b_amount,
        take_fee(escrow_state.b_amount, escrow_state.fees_bps) <= escrow_state.b_amount,
{
    let b = escrow_state.b_amount as int;
    let bps = escrow_state.fees_bps as int;
    let q = b * bps / 10000;
    vstd::arithmetic::div_mod::lemma_fundamental_div_mod(b * bps, 10000);
    assert(0 <= (b * bps) % 10000);
    assert(q * 10 <= b) by (nonlinear_arith)
        requires
            b * bps == 10000 * q + (b * bps) % 10000,
            0 <= (b * bps) % 10000,
            0 <= b,
            0 <= bps <= 1000,
    ;
    assert(0 <= q) by (nonlinear_arith)
        requires
            q == b * bps / 10000,
            0 <= b,
            0 <= bps,
    ;
}

/// Taking an escrow moves only well-formed transfers, and in net: the taker
/// pays the whole price in mint B, the fee account at the admin address gets
/// the fee, the maker the rest, and the deposit in mint A goes from the
/// escrow's vault to the taker; the fee vault state's own token account is not
/// touched. The fee vault's recorded total grows by exactly what the fee
/// account at the admin address receives.
pub proof fn law_take_settles(ctx: Take, seed: u16)
    requires
        take_succeeds(ctx),
    ensures
        all_well_formed(take_transfers(ctx, seed)),
        net_flow(take_transfers(ctx, seed), TokenAccountRole::TakerAtaB)
            == -(ctx.escrow_state.b_amount as int),
        net_flow(take_transfers(ctx, seed), TokenAccountRole::AdminFeeAccount)
            == take_fee_of(ctx) as int,
        net_flow(take_transfers(ctx, seed), TokenAccountRole::FeeVault) == 0,
        net_flow(take_transfers(ctx, seed), TokenAccountRole::MakerAtaB)
            == ctx.escrow_state.b_amount - take_fee_of(ctx),
        net_flow(take_transfers(ctx, seed), TokenAccountRole::TemporaryVault)
            == -(ctx.escrow_state.a_amount as int),
        net_flow(take_transfers(ctx, seed), TokenAccountRole::TakerAtaA)
            == ctx.escrow_state.a_amount as int,
        net_flow(take_transfers(ctx, seed), TokenAccountRole::MakerAtaA) == 0,
        net_flow(take_transfers(ctx, seed), TokenAccountRole::ReceiverAtaB) == 0,
        take_result(ctx).fee_vault_state.total_collected == ctx.fee_vault_state.total_collected
            + net_flow(take_transfers(ctx, seed), TokenAccountRole::AdminFeeAccount),
{
    let ts = take_transfers(ctx, seed);
    assert(ts.drop_last().drop_last().drop_last() =~= Seq::<TokenTransfer>::empty());
    reveal_with_fuel(net_flow, 4);
}

/// Withdrawing fees moves a well-formed transfer of `amount` from the fee
/// vault to the receiver, and the fee vault's total shrinks by exactly what
/// leaves the fee vault.
pub proof fn law_withdraw_fees_settles(ctx: WithdrawFees, amount: u64)
    requires
        withdraw_fees_allowed(ctx, amount),
    ensures
        all_well_formed(withdraw_fees_transfers(ctx, amount)),
        net_flow(withdraw_fees_transfers(ctx, amount), TokenAccountRole::FeeVault) == -(amount as int),
        net_flow(withdraw_fees_transfers(ctx, amount), TokenAccountRole::ReceiverAtaB) == amount as int,
        withdraw_fees_result(ctx, amount).fee_vault_state.total_collected
            == ctx.fee_vault_state.total_collected + net_flow(
            withdraw_fees_transfers(ctx, amount),
            TokenAccountRole::FeeVault,
        ),
{
    let ts = withdraw_fees_transfers(ctx, amount);
    assert(ts.drop_last() =~= Seq::<TokenTransfer>::empty());
    reveal_with_fuel(net_flow, 2);
}

/// On the recorded total alone: the fee that a take adds to the fee vault's
/// `total_collected` may always be withdrawn again, and withdrawing it brings
/// `total_collected` back to what it was. (Taking pays the fee to the account
/// at the admin address; withdrawing takes from the fee vault state's token
/// account. This law speaks of the bookkeeping, not of those balances.)
pub proof fn law_take_fee_can_be_withdrawn(ctx: Take, seed: u16, withdraw: WithdrawFees)
    requires
        take_succeeds(ctx),
        withdraw.fee_vault_state == take_result(ctx).fee_vault_state,
    ensures
        withdraw_fees_allowed(withdraw, take_fee_of(ctx)),
        withdraw_fees_result(withdraw, take_fee_of(ctx)).fee_vault_state
            == ctx.fee_vault_state,
{
}

/// The escrow that a make records, as the cancel instruction reads it.
pub open spec fn cancel_of_make(
    make: Make,
    seed: u16,
    a_amount: u64,
    b_amount: u64,
    fee_bps: u16,
    made_at: i64,
) -> Cancel {
    Cancel {
        maker: make.maker,
        mint_a_decimals: make.mint_a_decimals,
        escrow_state: made_escrow_state(make, seed, a_amount, b_amount, fee_bps, made_at),
        escrow_state_bump: make.escrow_state_bump,
    }
}

/// An escrow can be cancelled exactly from `CANCEL_DELAY` seconds after it was
/// made on, and cancelling refunds the deposit: the make and the cancel
/// together leave every balance as it was.
pub proof fn law_cancel_refunds_make(
    make: Make,
    seed: u16,
    a_amount: u64,
    b_amount: u64,
    fee_bps: u16,
    made_at: i64,
    now: i64,
    account: TokenAccountRole,
)
    ensures
        cancel_allowed(
            cancel_of_make(make, seed, a_amount, b_amount, fee_bps, made_at).escrow_state,
            now,
        ) <==> now >= made_at + CANCEL_DELAY,
        all_well_formed(
            make_transfers(make, a_amount) + cancel_transfers(
                cancel_of_make(make, seed, a_amount, b_amount, fee_bps, made_at),
                seed,
            ),
        ),
        net_flow(
            make_transfers(make, a_amount) + cancel_transfers(
                cancel_of_make(make, seed, a_amount, b_amount, fee_bps, made_at),
                seed,
            ),
            account,
        ) == 0,
{
    let c = cancel_of_make(make, seed, a_amount, b_amount, fee_bps, made_at);
    let m = make_transfers(make, a_amount);
    let k = cancel_transfers(c, seed);
    lemma_net_flow_append(m, k, account);
    assert(m.drop_last() =~= Seq::<TokenTransfer>::empty());
    assert(k.drop_last() =~= Seq::<TokenTransfer>::empty());
    reveal_with_fuel(net_flow, 2);
    assert(all_well_formed(m + k)) by {
        assert forall|i: int| 0 <= i < (m + k).len() implies crate::ledger::transfer_well_formed(
            #[trigger] (m + k)[i],
        ) by {
            if i == 0 {
                assert((m + k)[i] == m[0]);
            } else {
                assert((m + k)[i] == k[0]);
            }
        }
    }
}

/// The escrow that a make records, as the take instruction reads it.
pub open spec fn take_of_make(
    make: Make,
    seed: u16,
    a_amount: u64,
    b_amount: u64,
    fee_bps: u16,
    made_at: i64,
    mint_b_decimals: u8,
    fee_vault_state: FeeVaultState,
) -> Take {
    Take {
        escrow_state: made_escrow_state(make, seed, a_amount, b_amount, fee_bps, made_at),
        escrow_state_bump: make.escrow_state_bump,
        mint_a_decimals: make.mint_a_decimals,
        mint_b_decimals,
        fee_vault_state,
    }
}

/// An escrow made with a fee that passes validation can be taken whenever the
/// fee vault's total has room for the fee, and the make and the take together
/// swap the tokens: the maker's deposit in mint A ends with the taker, the
/// escrow's vault ends as it began, the taker pays the price in mint B, and
/// the maker receives the price less the fee, at least nine tenths of it.
pub proof fn law_take_swaps_make(
    make: Make,
    seed: u16,
    a_amount: u64,
    b_amount: u64,
    fee_bps: u16,
    made_at: i64,
    mint_b_decimals: u8,
    fee_vault_state: FeeVaultState,
)
    requires
        fee_bps <= MAX_BPS,
        fee_vault_state.total_collected + take_fee(b_amount, fee_bps) <= u64::MAX,
    ensures
        take_succeeds(
            take_of_make(make, seed, a_amount, b_amount, fee_bps, made_at, mint_b_decimals, fee_vault_state),
        ),
        ({
            let t = take_of_make(make, seed, a_amount, b_amount, fee_bps, made_at, mint_b_decimals, fee_vault_state);
            let ts = make_transfers(make, a_amount) + take_transfers(t, seed);
            &&& all_well_formed(ts)
            &&& net_flow(ts, TokenAccountRole::MakerAtaA) == -(a_amount as int)
            &&& net_flow(ts, TokenAccountRole::TemporaryVault) == 0
            &&& net_flow(ts, TokenAccountRole::TakerAtaA) == a_amount as int
            &&& net_flow(ts, TokenAccountRole::TakerAtaB) == -(b_amount as int)
            &&& net_flow(ts, TokenAccountRole::AdminFeeAccount) == take_fee(b_amount, fee_bps) as int
            &&& net_flow(ts, TokenAccountRole::MakerAtaB) == b_amount - take_fee(b_amount, fee_bps)
            &&& 10 * net_flow(ts, TokenAccountRole::MakerAtaB) >= 9 * b_amount
        }),
{
    let t = take_of_make(make, seed, a_amount, b_amount, fee_bps, made_at, mint_b_decimals, fee_vault_state);
    law_valid_fee_is_at_most_a_tenth(t.escrow_state);
    law_take_settles(t, seed);
    let m = make_transfers(make, a_amount);
    let k = take_transfers(t, seed);
    assert(m.drop_last() =~= Seq::<TokenTransfer>::empty());
    reveal_with_fuel(net_flow, 2);
    lemma_net_flow_append(m, k, TokenAccountRole::MakerAtaA);
    lemma_net_flow_append(m, k, TokenAccountRole::TemporaryVault);
    lemma_net_flow_append(m, k, TokenAccountRole::TakerAtaA);
    lemma_net_flow_append(m, k, TokenAccountRole::TakerAtaB);
    lemma_net_flow_append(m, k, TokenAccountRole::AdminFeeAccount);
    lemma_net_flow_append(m, k, TokenAccountRole::MakerAtaB);
    assert(all_well_formed(m + k)) by {
        assert forall|i: int| 0 <= i < (m + k).len() implies crate::ledger::transfer_well_formed(
            #[trigger] (m + k)[i],
        ) by {
            if i == 0 {
                assert((m + k)[i] == m[0]);
            } else {
                assert((m + k)[i] == k[i - 1]);
            }
        }
    }
}

} // verus!

//! The fee vault's bookkeeping over any run of takes and fee withdrawals.

use vstd::prelude::*;

use crate::instructions::initialize::{initialize_result, Initialize};
use crate::instructions::take::{take_fee_of, take_result, take_succeeds, Take};
use crate::instructions::withdraw_fees::{withdraw_fees_allowed, withdraw_fees_result, WithdrawFees};
use crate::state::fee_vault_state::FeeVaultState;

verus! {

/// One change to the fee vault's recorded total: a take that collects a fee,
/// or a withdrawal of an amount by the admin.
#[derive(Clone, Copy, Debug, PartialEq, Eq, Structural)]
pub enum FeeEvent {
    Collect(u64),
    Withdraw(u64),
}

/// The fee vault state after one event, or `None` where the instruction
/// does not complete: a collection that would overflow the total, or a
/// withdrawal of more than the total.
pub open spec fn fee_step(state: FeeVaultState, event: FeeEvent) -> Option<FeeVaultState> {
    match event {
        FeeEvent::Collect(fee) => if state.total_collected + fee <= u64::MAX {
            Some(FeeVaultState { total_collected: (state.total_collected + fee) as u64, ..state })
        } else {
            None
        },
        FeeEvent::Withdraw(amount) => if amount <= state.total_collected {
            Some(FeeVaultState { total_collected: (state.total_collected - amount) as u64, ..state })
        } else {
            None
        },
    }
}

/// The fee vault state after a run of events, or `None` where one of them
/// does not complete.
pub open spec fn fee_run(state: FeeVaultState, events: Seq<FeeEvent>) -> Option<FeeVaultState>
    decreases events.len(),
{
    if events.len() == 0 {
        Some(state)
    } else {
        match fee_run(state, events.drop_last()) {
            Some(s) => fee_step(s, events.last()),
            None => None,
        }
    }
}

/// The fees that a run of events collects.
pub open spec fn collected(events: Seq<FeeEvent>) -> int
    decreases events.len(),
{
    if events.len() == 0 {
        0
    } else {
        collected(events.drop_last()) + match events.last() {
            FeeEvent::Collect(fee) => fee as int,
            FeeEvent::Withdraw(_) => 0,
        }
    }
}

/// The amounts that a run of events withdraws.
pub open spec fn withdrawn(events: Seq<FeeEvent>) -> int
    decreases events.len(),
{
    if events.len() == 0 {
        0
    } else {
        withdrawn(events.drop_last()) + match events.last() {
            FeeEvent::Collect(_) => 0,
            FeeEvent::Withdraw(amount) => amount as int,
        }
    }
}

/// The starting total plus what a run of events collects less what it
/// withdraws lies between zero and the largest `u64`.
pub open spec fn ledger_in_range(start_total: u64, events: Seq<FeeEvent>) -> bool {
    0 <= start_total + collected(events) - withdrawn(events) <= u64::MAX
}

/// Taking an escrow is a collection of its fee: the fee vault state after a
/// take is the state after collecting that fee.
pub proof fn law_take_collects_its_fee(ctx: Take)
    requires
        take_succeeds(ctx),
    ensures
        fee_step(ctx.fee_vault_state, FeeEvent::Collect(take_fee_of(ctx)))
            == Some(take_result(ctx).fee_vault_state),
{
}

/// Withdrawing fees is a withdrawal event: it completes exactly when the
/// event does, and leaves the fee vault state the event gives.
pub proof fn law_withdraw_fees_is_a_withdrawal(ctx: WithdrawFees, amount: u64)
    ensures
        fee_step(ctx.fee_vault_state, FeeEvent::Withdraw(amount)) == (if withdraw_fees_allowed(
            ctx,
            amount,
        ) {
            Some(withdraw_fees_result(ctx, amount).fee_vault_state)
        } else {
            None::<FeeVaultState>
        }),
{
}

/// Over any run of collections and withdrawals from any fee vault state, the
/// run completes exactly when, after every prefix of it, the starting total
/// plus the fees collected so far less the amounts withdrawn so far neither
/// goes below zero nor above the largest `u64`; and then the final total is
/// the starting total plus all fees collected less all amounts withdrawn.
pub proof fn law_fee_ledger(start: FeeVaultState, events: Seq<FeeEvent>)
    ensures
        fee_run(start, events) is Some <==> forall|k: int|
            0 <= k <= events.len() ==> #[trigger] ledger_in_range(
                start.total_collected,
                events.take(k),
            ),
        fee_run(start, events) is Some ==> fee_run(start, events).unwrap().total_collected
            == start.total_collected + collected(events) - withdrawn(events),
    decreases events.len(),
{
    if events.len() == 0 {
        assert(events.take(0) =~= events);
        assert forall|k: int| 0 <= k <= events.len() implies #[trigger] ledger_in_range(
            start.total_collected,
            events.take(k),
        ) by {
            assert(events.take(k) =~= events);
        }
    } else {
        let n = events.len() as int;
        let d = events.drop_last();
        law_fee_ledger(start, d);
        assert forall|k: int| 0 <= k <= n - 1 implies #[trigger] events.take(k) == d.take(k) by {
            assert(events.take(k) =~= d.take(k));
        }
        assert(events.take(n) =~= events);
        if fee_run(start, events) is Some {
            assert forall|k: int| 0 <= k <= n implies #[trigger] ledger_in_range(
                start.total_collected,
                events.take(k),
            ) by {
                if k < n {
                    assert(events.take(k) == d.take(k));
                    assert(ledger_in_range(start.total_collected, d.take(k)));
                }
            }
        }
        if forall|k: int| 0 <= k <= n ==> #[trigger] ledger_in_range(start.total_collected, events.take(k)) {
            assert forall|k: int| 0 <= k <= n - 1 implies #[trigger] ledger_in_range(
                start.total_collected,
                d.take(k),
            ) by {
                assert(events.take(k) == d.take(k));
                assert(ledger_in_range(start.total_collected, events.take(k)));
            }
            assert(ledger_in_range(start.total_collected, events.take(n)));
        }
    }
}

/// From a fee vault just set up, any run of takes and fee withdrawals that
/// completes leaves as total exactly the fees collected less the amounts
/// withdrawn, and at no point along it did the withdrawals exceed the fees
/// collected before them.
pub proof fn law_fee_ledger_from_initialize(init: Initialize, events: Seq<FeeEvent>)
    requires
        fee_run(initialize_result(init).fee_vault_state, events) is Some,
    ensures
        fee_run(initialize_result(init).fee_vault_state, events).unwrap().total_collected
            == collected(events) - withdrawn(events),
        forall|k: int|
            0 <= k <= events.len() ==> 0 <= collected(#[trigger] events.take(k)) - withdrawn(
                events.take(k),
            ) <= u64::MAX,
{
    let start = initialize_result(init).fee_vault_state;
    law_fee_ledger(start, events);
    assert forall|k: int| 0 <= k <= events.len() implies 0 <= collected(
        #[trigger] events.take(k),
    ) - withdrawn(events.take(k)) <= u64::MAX by {
        assert(ledger_in_range(start.total_collected, events.take(k)));
    }
}

} // verus!

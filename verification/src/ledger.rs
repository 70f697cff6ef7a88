//! What a list of token transfers does to the balances of the accounts it
//! touches.

use vstd::prelude::*;

use crate::cpi::{MintRole, TokenAccountRole, TokenTransfer};

verus! {

/// The mint that a token account holds.
pub open spec fn role_mint(account: TokenAccountRole) -> MintRole {
    match account {
        TokenAccountRole::MakerAtaA => MintRole::A,
        TokenAccountRole::TemporaryVault => MintRole::A,
        TokenAccountRole::TakerAtaA => MintRole::A,
        TokenAccountRole::MakerAtaB => MintRole::B,
        TokenAccountRole::TakerAtaB => MintRole::B,
        TokenAccountRole::FeeVault => MintRole::B,
        TokenAccountRole::AdminFeeAccount => MintRole::B,
        TokenAccountRole::ReceiverAtaB => MintRole::B,
    }
}

/// A transfer moves its own mint between two distinct accounts of that mint.
pub open spec fn transfer_well_formed(t: TokenTransfer) -> bool {
    &&& t.from != t.to
    &&& role_mint(t.from) == t.mint
    &&& role_mint(t.to) == t.mint
}

/// Every transfer of the list is well formed.
pub open spec fn all_well_formed(transfers: Seq<TokenTransfer>) -> bool {
    forall|i: int| 0 <= i < transfers.len() ==> transfer_well_formed(#[trigger] transfers[i])
}

/// The change that one transfer makes to an account's balance.
pub open spec fn transfer_flow(t: TokenTransfer, account: TokenAccountRole) -> int {
    (if t.to == account {
        t.amount as int
    } else {
        0
    }) - (if t.from == account {
        t.amount as int
    } else {
        0
    })
}

/// The change that a list of transfers makes to an account's balance.
pub open spec fn net_flow(transfers: Seq<TokenTransfer>, account: TokenAccountRole) -> int
    decreases transfers.len(),
{
    if transfers.len() == 0 {
        0
    } else {
        net_flow(transfers.drop_last(), account) + transfer_flow(transfers.last(), account)
    }
}

/// Running two lists of transfers one after the other changes each balance
/// by the sum of what each list changes it by.
pub proof fn lemma_net_flow_append(a: Seq<TokenTransfer>, b: Seq<TokenTransfer>, account: TokenAccountRole)
    ensures
        net_flow(a + b, account) == net_flow(a, account) + net_flow(b, account),
    decreases b.len(),
{
    if b.len() == 0 {
        assert(a + b =~= a);
    } else {
        lemma_net_flow_append(a, b.drop_last(), account);
        assert((a + b).drop_last() =~= a + b.drop_last());
        assert((a + b).last() == b.last());
    }
}

} // verus!

use vstd::prelude::*;

verus! {

/// The settings of a user's lamport vault.
#[derive(Clone, Copy, Debug, PartialEq, Eq)]
pub struct VaultState {
    pub max_withdraw: u64,
    pub vault_bump: u8,
    pub state_bump: u8,
}

} // verus!

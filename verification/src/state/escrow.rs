use vstd::prelude::*;

use crate::pubkey::Pubkey;

verus! {

/// The record of an escrow opened through the second make instruction.
#[derive(Clone, Copy, Debug, PartialEq, Eq)]
pub struct Escrow {
    pub maker: Pubkey,
    pub vault_authority: Pubkey,
    pub vault_pda: Pubkey,
    pub mint_a: Pubkey,
    pub mint_b: Pubkey,
    pub amount_a: u64,
    pub amount_b: u64,
    pub seed: u16,
    pub bump: u8,
    pub timestamp: i64,
}

} // verus!

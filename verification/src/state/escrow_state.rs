use vstd::prelude::*;

use crate::constants::MAX_BPS;
use crate::error::EscrowError;
use crate::pubkey::Pubkey;

verus! {

/// An open offer: the maker deposited `a_amount` of `mint_a` and asks for
/// `b_amount` of `mint_b`, of which `fees_bps` basis points go to the fee vault.
#[derive(Clone, Copy, Debug, PartialEq, Eq)]
pub struct EscrowState {
    pub maker: Pubkey,
    pub mint_a: Pubkey,
    pub mint_b: Pubkey,
    pub a_amount: u64,
    pub b_amount: u64,
    pub created_at: i64,
    pub fees_bps: u16,
    pub seed: u16,
    pub bump: u8,
}

impl EscrowState {
    /// Whether the escrow's fee is within the allowed rate.
    pub open spec fn fee_is_valid(self) -> bool {
        self.fees_bps <= MAX_BPS
    }

    /// Accepts a fee of at most `MAX_BPS` basis points (10%); refuses a higher
    /// one with `FeeTooHigh`.
    pub fn validate_fee(&self) -> (r: Result<(), EscrowError>)
        ensures
            r == (if self.fee_is_valid() {
                Ok(())
            } else {
                Err(EscrowError::FeeTooHigh)
            }),
    {
        if self.fees_bps <= MAX_BPS {
            Ok(())
        } else {
            Err(EscrowError::FeeTooHigh)
        }
    }
}

} // verus!

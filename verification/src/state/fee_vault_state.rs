use vstd::prelude::*;

use crate::constants::MIN_WITHDRAW_AMOUNT;
use crate::error::FeeVaultError;
use crate::pubkey::Pubkey;

verus! {

/// The bookkeeping of the fee vault: the fees collected and not yet withdrawn.
#[derive(Clone, Copy, Debug, PartialEq, Eq)]
pub struct FeeVaultState {
    pub admin: Pubkey,
    pub total_collected: u64,
    pub bump: u8,
}

impl FeeVaultState {
    /// Accepts a vault that holds at least `MIN_WITHDRAW_AMOUNT`; refuses one
    /// that holds less with `WithdrawalTooLittle`.
    pub fn validate_withdraw(&self) -> (r: Result<(), FeeVaultError>)
        ensures
            r == (if self.total_collected >= MIN_WITHDRAW_AMOUNT {
                Ok(())
            } else {
                Err(FeeVaultError::WithdrawalTooLittle)
            }),
    {
        if self.total_collected >= MIN_WITHDRAW_AMOUNT {
            Ok(())
        } else {
            Err(FeeVaultError::WithdrawalTooLittle)
        }
    }
}

} // verus!

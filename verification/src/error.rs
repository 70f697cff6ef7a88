use vstd::prelude::*;

verus! {

/// Errors of the fee vault.
#[derive(Debug, Clone, Copy, PartialEq, Eq, Structural)]
pub enum FeeVaultError {
    /// Withdrawal too Large
    WithdrawalTooLarge,
    /// Withdrawal too Little
    WithdrawalTooLittle,
}

/// Errors of the escrow.
#[derive(Debug, Clone, Copy, PartialEq, Eq, Structural)]
pub enum EscrowError {
    /// amount of tokens should be over 0
    InvalidAmount,
    /// High fees bps: over 10%
    FeeTooHigh,
    /// Amount not match
    AmountNotMatch,
    /// Too Early to cancel
    TooEarlyToCancel,
}

/// Errors of the lamport vault.
#[derive(Debug, Clone, Copy, PartialEq, Eq, Structural)]
pub enum VaultError {
    /// Withdrawal too Large
    WithdrawalTooLarge,
}

/// First code given to a program's own errors; each enum numbers its
/// variants from here in the order they are declared.
pub const ERROR_CODE_OFFSET: u32 = 6000;

impl FeeVaultError {
    /// The error's number as the program reports it.
    pub fn code(&self) -> (c: u32)
        ensures
            c == ERROR_CODE_OFFSET + match self {
                FeeVaultError::WithdrawalTooLarge => 0int,
                FeeVaultError::WithdrawalTooLittle => 1int,
            },
    {
        match self {
            FeeVaultError::WithdrawalTooLarge => ERROR_CODE_OFFSET,
            FeeVaultError::WithdrawalTooLittle => ERROR_CODE_OFFSET + 1,
        }
    }

    /// The error's message.
    pub fn message(&self) -> (m: &'static str)
        ensures
            m@ == match self {
                FeeVaultError::WithdrawalTooLarge => "Withdrawal too Large"@,
                FeeVaultError::WithdrawalTooLittle => "Withdrawal too Little"@,
            },
    {
        match self {
            FeeVaultError::WithdrawalTooLarge => "Withdrawal too Large",
            FeeVaultError::WithdrawalTooLittle => "Withdrawal too Little",
        }
    }
}

impl EscrowError {
    /// The error's number as the program reports it.
    pub fn code(&self) -> (c: u32)
        ensures
            c == ERROR_CODE_OFFSET + match self {
                EscrowError::InvalidAmount => 0int,
                EscrowError::FeeTooHigh => 1int,
                EscrowError::AmountNotMatch => 2int,
                EscrowError::TooEarlyToCancel => 3int,
            },
    {
        match self {
            EscrowError::InvalidAmount => ERROR_CODE_OFFSET,
            EscrowError::FeeTooHigh => ERROR_CODE_OFFSET + 1,
            EscrowError::AmountNotMatch => ERROR_CODE_OFFSET + 2,
            EscrowError::TooEarlyToCancel => ERROR_CODE_OFFSET + 3,
        }
    }

    /// The error's message.
    pub fn message(&self) -> (m: &'static str)
        ensures
            m@ == match self {
                EscrowError::InvalidAmount => "amount of tokens should be over 0"@,
                EscrowError::FeeTooHigh => "High fees bps: over 10%"@,
                EscrowError::AmountNotMatch => "Amount not match"@,
                EscrowError::TooEarlyToCancel => "Too Early to cancel"@,
            },
    {
        match self {
            EscrowError::InvalidAmount => "amount of tokens should be over 0",
            EscrowError::FeeTooHigh => "High fees bps: over 10%",
            EscrowError::AmountNotMatch => "Amount not match",
            EscrowError::TooEarlyToCancel => "Too Early to cancel",
        }
    }
}

impl VaultError {
    /// The error's number as the program reports it.
    pub fn code(&self) -> (c: u32)
        ensures
            c == ERROR_CODE_OFFSET,
    {
        ERROR_CODE_OFFSET
    }

    /// The error's message.
    pub fn message(&self) -> (m: &'static str)
        ensures
            m@ == "Withdrawal too Large"@,
    {
        "Withdrawal too Large"
    }
}

} // verus!

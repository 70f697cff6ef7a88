use vstd::prelude::*;

verus! {

/// Length of the type tag that prefixes every account's data.
pub const DISCRIMINATOR: usize = 8;

/// Seed prefix of an escrow account's address: the bytes of "escrow".
pub const ESCROW_SEED: [u8; 6] = [101u8, 115u8, 99u8, 114u8, 111u8, 119u8];

/// Seed prefix of the fee vault state's address: the bytes of "vault_state".
pub const VAULT_STATE: [u8; 11] = [118u8, 97u8, 117u8, 108u8, 116u8, 95u8, 115u8, 116u8, 97u8, 116u8, 101u8];

/// Seed prefix of a lamport vault's address: the bytes of "vault".
pub const VAULT_SEED: [u8; 5] = [118u8, 97u8, 117u8, 108u8, 116u8];

/// Seed prefix of a lamport vault's state account: the bytes of "state".
pub const VAULT_STATE_SEED: [u8; 5] = [115u8, 116u8, 97u8, 116u8, 101u8];

/// The only address allowed to set up and empty the fee vault.
pub const ADMIN_ADDR: &'static str = "HNZsqu8wnc1kmRBxeFAT91ka9KBtvZ7vkELN5jJELa8c";

/// Largest accepted escrow fee, in basis points (10%).
pub const MAX_BPS: u16 = 1000;

/// Basis points in a whole.
pub const BPS_DENOMINATOR: u64 = 10000;

/// Smallest fee balance that may be withdrawn: one SOL in lamports.
pub const MIN_WITHDRAW_AMOUNT: u64 = 1_000_000_000;

/// Seconds that must pass after an escrow is made before its maker may cancel it.
pub const CANCEL_DELAY: i64 = 300;

} // verus!

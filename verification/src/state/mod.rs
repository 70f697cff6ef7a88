pub mod escrow;
pub mod escrow_state;
pub mod fee_vault_state;
pub mod vault_state;

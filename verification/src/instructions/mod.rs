pub mod cancel;
pub mod close;
pub mod initialize;
pub mod make;
pub mod make_escrow;
pub mod take;
pub mod withdraw;
pub mod withdraw_fees;

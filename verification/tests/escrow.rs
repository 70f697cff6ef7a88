use lamports_vault::constants::{CANCEL_DELAY, MAX_BPS};
use lamports_vault::cpi::{Authority, MintRole, TokenAccountRole, TokenTransfer};
use lamports_vault::error::EscrowError;
use lamports_vault::instructions::cancel::{cancel_handler, elapsed_fits, Cancel};
use lamports_vault::instructions::make::{make_handler, Make};
use lamports_vault::instructions::make_escrow;
use lamports_vault::instructions::take::{can_take, compute_take_fee, take_handler, Take};
use lamports_vault::pubkey::Pubkey;
use lamports_vault::state::escrow::Escrow;
use lamports_vault::state::escrow_state::EscrowState;
use lamports_vault::state::fee_vault_state::FeeVaultState;

fn key(b: u8) -> Pubkey {
    Pubkey::new_from_array([b; 32])
}

fn blank_escrow_state() -> EscrowState {
    EscrowState {
        maker: key(0),
        mint_a: key(0),
        mint_b: key(0),
        a_amount: 0,
        b_amount: 0,
        created_at: 0,
        fees_bps: 0,
        seed: 0,
        bump: 0,
    }
}

fn escrow_state(a_amount: u64, b_amount: u64, fees_bps: u16, created_at: i64) -> EscrowState {
    EscrowState {
        maker: key(1),
        mint_a: key(2),
        mint_b: key(3),
        a_amount,
        b_amount,
        created_at,
        fees_bps,
        seed: 7,
        bump: 254,
    }
}

fn fee_vault(total: u64) -> FeeVaultState {
    FeeVaultState { admin: key(9), total_collected: total, bump: 250 }
}

fn take_ctx(b_amount: u64, fees_bps: u16, total: u64) -> Take {
    Take {
        escrow_state: escrow_state(500, b_amount, fees_bps, 100),
        escrow_state_bump: 254,
        mint_a_decimals: 6,
        mint_b_decimals: 9,
        fee_vault_state: fee_vault(total),
    }
}

/// The change that the transfers make to one account's balance.
fn net(transfers: &[TokenTransfer], account: TokenAccountRole) -> i128 {
    let mut n: i128 = 0;
    for t in transfers {
        if t.to == account {
            n += t.amount as i128;
        }
        if t.from == account {
            n -= t.amount as i128;
        }
    }
    n
}

const ROLES: [TokenAccountRole; 8] = [
    TokenAccountRole::MakerAtaA,
    TokenAccountRole::MakerAtaB,
    TokenAccountRole::TemporaryVault,
    TokenAccountRole::TakerAtaA,
    TokenAccountRole::TakerAtaB,
    TokenAccountRole::FeeVault,
    TokenAccountRole::AdminFeeAccount,
    TokenAccountRole::ReceiverAtaB,
];

#[test]
fn validate_fee_accepts_up_to_ten_percent() {
    assert_eq!(escrow_state(1, 1, 0, 0).validate_fee(), Ok(()));
    assert_eq!(escrow_state(1, 1, 250, 0).validate_fee(), Ok(()));
    assert_eq!(escrow_state(1, 1, MAX_BPS, 0).validate_fee(), Ok(()));
    assert_eq!(escrow_state(1, 1, MAX_BPS + 1, 0).validate_fee(), Err(EscrowError::FeeTooHigh));
    assert_eq!(escrow_state(1, 1, u16::MAX, 0).validate_fee(), Err(EscrowError::FeeTooHigh));
}

#[test]
fn make_records_the_offer_and_deposits() {
    let mut ctx = Make {
        maker: key(1),
        mint_a: key(2),
        mint_a_decimals: 6,
        mint_b: key(3),
        escrow_state: blank_escrow_state(),
        escrow_state_bump: 254,
    };
    let transfers = make_handler(&mut ctx, 7, 500, 10_000, 250, 1_700_000_000);
    assert_eq!(ctx.escrow_state, escrow_state(500, 10_000, 250, 1_700_000_000));
    assert_eq!(
        transfers,
        vec![TokenTransfer {
            from: TokenAccountRole::MakerAtaA,
            to: TokenAccountRole::TemporaryVault,
            mint: MintRole::A,
            decimals: 6,
            amount: 500,
            authority: Authority::Maker,
        }]
    );
}

#[test]
fn make_escrow_refuses_zero_amounts() {
    let blank = Escrow {
        maker: key(0),
        vault_authority: key(0),
        vault_pda: key(0),
        mint_a: key(0),
        mint_b: key(0),
        amount_a: 0,
        amount_b: 0,
        seed: 0,
        bump: 0,
        timestamp: 0,
    };
    let start = make_escrow::Make {
        maker: key(1),
        escrow: blank,
        escrow_bump: 253,
        mint_a: key(2),
        mint_a_decimals: 6,
        mint_b: key(3),
        vault_a: key(4),
    };
    let mut ctx = start;
    assert_eq!(make_escrow::make_handler(&mut ctx, 3, 0, 10, 50), Err(EscrowError::InvalidAmount));
    assert_eq!(ctx, start);
    assert_eq!(make_escrow::make_handler(&mut ctx, 3, 10, 0, 50), Err(EscrowError::InvalidAmount));
    assert_eq!(ctx, start);

    let transfers = make_escrow::make_handler(&mut ctx, 3, 10, 20, 50).unwrap();
    assert_eq!(
        ctx.escrow,
        Escrow {
            maker: key(1),
            vault_authority: key(1),
            vault_pda: key(4),
            mint_a: key(2),
            mint_b: key(3),
            amount_a: 10,
            amount_b: 20,
            seed: 3,
            bump: 253,
            timestamp: 50,
        }
    );
    assert_eq!(transfers.len(), 1);
    assert_eq!(transfers[0].from, TokenAccountRole::MakerAtaA);
    assert_eq!(transfers[0].to, TokenAccountRole::TemporaryVault);
    assert_eq!(transfers[0].amount, 10);
    assert_eq!(transfers[0].authority, Authority::Maker);
}

#[test]
fn take_fee_is_the_rate_rounded_down() {
    assert_eq!(compute_take_fee(10_000, 250), 250);
    assert_eq!(compute_take_fee(9_999, 1000), 999);
    assert_eq!(compute_take_fee(12_345, 1), 1);
    assert_eq!(compute_take_fee(9_999, 1), 0);
    assert_eq!(compute_take_fee(u64::MAX, 10_000), u64::MAX);
    // cut to 64 bits as the program does
    let exact: u128 = (u64::MAX as u128) * (u16::MAX as u128) / 10_000;
    assert_eq!(compute_take_fee(u64::MAX, u16::MAX), exact as u64);
}

#[test]
fn take_pays_fee_and_maker_and_releases_deposit() {
    let mut ctx = take_ctx(10_000, 250, 40);
    assert!(can_take(&ctx));
    let transfers = take_handler(&mut ctx, 7);
    assert_eq!(transfers.len(), 3);
    assert_eq!(
        transfers[0],
        TokenTransfer {
            from: TokenAccountRole::TakerAtaB,
            to: TokenAccountRole::AdminFeeAccount,
            mint: MintRole::B,
            decimals: 9,
            amount: 250,
            authority: Authority::Taker,
        }
    );
    assert_eq!(
        transfers[1],
        TokenTransfer {
            from: TokenAccountRole::TakerAtaB,
            to: TokenAccountRole::MakerAtaB,
            mint: MintRole::B,
            decimals: 9,
            amount: 9_750,
            authority: Authority::Taker,
        }
    );
    assert_eq!(
        transfers[2],
        TokenTransfer {
            from: TokenAccountRole::TemporaryVault,
            to: TokenAccountRole::TakerAtaA,
            mint: MintRole::A,
            decimals: 6,
            amount: 500,
            authority: Authority::EscrowState { seed: 7, maker: key(1), bump: 254 },
        }
    );
    assert_eq!(ctx.fee_vault_state.total_collected, 290);
    assert_eq!(ctx.escrow_state, escrow_state(500, 10_000, 250, 100));
}

#[test]
fn take_with_zero_fee_pays_the_maker_everything() {
    let mut ctx = take_ctx(777, 0, 5);
    let transfers = take_handler(&mut ctx, 7);
    assert_eq!(transfers[0].amount, 0);
    assert_eq!(transfers[1].amount, 777);
    assert_eq!(ctx.fee_vault_state.total_collected, 5);
}

#[test]
fn take_above_the_whole_price_cannot_complete() {
    // a rate just over 100% still leaves a fee within the price on one token
    let mut ctx = take_ctx(1, 10_001, 0);
    assert!(can_take(&ctx));
    let transfers = take_handler(&mut ctx, 7);
    assert_eq!(transfers[0].amount, 1);
    assert_eq!(transfers[1].amount, 0);
    // a larger price makes the fee exceed it
    assert!(!can_take(&take_ctx(10_000, 10_001, 0)));
    assert!(!can_take(&take_ctx(10_000, u16::MAX, 0)));
    // the fee vault's total cannot hold the fee
    assert!(!can_take(&take_ctx(10_000, 250, u64::MAX - 249)));
    assert!(can_take(&take_ctx(10_000, 250, u64::MAX - 250)));
}

#[test]
fn cancel_waits_for_the_delay() {
    let ctx = Cancel {
        maker: key(1),
        mint_a_decimals: 6,
        escrow_state: escrow_state(500, 10_000, 250, 100),
        escrow_state_bump: 254,
    };
    assert_eq!(cancel_handler(&ctx, 7, 100), Err(EscrowError::TooEarlyToCancel));
    assert_eq!(cancel_handler(&ctx, 7, 100 + CANCEL_DELAY - 1), Err(EscrowError::TooEarlyToCancel));
    assert_eq!(cancel_handler(&ctx, 7, 50), Err(EscrowError::TooEarlyToCancel));
    let transfers = cancel_handler(&ctx, 7, 100 + CANCEL_DELAY).unwrap();
    assert_eq!(
        transfers,
        vec![TokenTransfer {
            from: TokenAccountRole::TemporaryVault,
            to: TokenAccountRole::MakerAtaA,
            mint: MintRole::A,
            decimals: 6,
            amount: 500,
            authority: Authority::EscrowState { seed: 7, maker: key(1), bump: 254 },
        }]
    );
}

#[test]
fn cancel_elapsed_time_must_fit() {
    let state = escrow_state(1, 1, 0, -10);
    assert!(elapsed_fits(&state, 0));
    assert!(elapsed_fits(&state, i64::MAX - 10));
    assert!(!elapsed_fits(&state, i64::MAX));
    let state = escrow_state(1, 1, 0, 10);
    assert!(elapsed_fits(&state, i64::MIN + 10));
    assert!(!elapsed_fits(&state, i64::MIN));
}

#[test]
fn make_then_cancel_leaves_every_balance() {
    let mut make = Make {
        maker: key(1),
        mint_a: key(2),
        mint_a_decimals: 6,
        mint_b: key(3),
        escrow_state: blank_escrow_state(),
        escrow_state_bump: 254,
    };
    let mut transfers = make_handler(&mut make, 7, 500, 10_000, 250, 1_000);
    let cancel = Cancel {
        maker: make.maker,
        mint_a_decimals: make.mint_a_decimals,
        escrow_state: make.escrow_state,
        escrow_state_bump: make.escrow_state_bump,
    };
    assert_eq!(cancel_handler(&cancel, 7, 1_000), Err(EscrowError::TooEarlyToCancel));
    transfers.extend(cancel_handler(&cancel, 7, 1_300).unwrap());
    for role in ROLES {
        assert_eq!(net(&transfers, role), 0);
    }
}

#[test]
fn make_then_take_swaps_the_tokens() {
    let mut make = Make {
        maker: key(1),
        mint_a: key(2),
        mint_a_decimals: 6,
        mint_b: key(3),
        escrow_state: blank_escrow_state(),
        escrow_state_bump: 254,
    };
    let mut transfers = make_handler(&mut make, 7, 500, 10_000, MAX_BPS, 1_000);
    assert_eq!(make.escrow_state.validate_fee(), Ok(()));
    let mut take = Take {
        escrow_state: make.escrow_state,
        escrow_state_bump: make.escrow_state_bump,
        mint_a_decimals: 6,
        mint_b_decimals: 9,
        fee_vault_state: fee_vault(0),
    };
    assert!(can_take(&take));
    transfers.extend(take_handler(&mut take, 7));
    assert_eq!(net(&transfers, TokenAccountRole::MakerAtaA), -500);
    assert_eq!(net(&transfers, TokenAccountRole::TemporaryVault), 0);
    assert_eq!(net(&transfers, TokenAccountRole::TakerAtaA), 500);
    assert_eq!(net(&transfers, TokenAccountRole::TakerAtaB), -10_000);
    assert_eq!(net(&transfers, TokenAccountRole::AdminFeeAccount), 1_000);
    assert_eq!(net(&transfers, TokenAccountRole::FeeVault), 0);
    assert_eq!(net(&transfers, TokenAccountRole::MakerAtaB), 9_000);
    assert_eq!(take.fee_vault_state.total_collected, 1_000);
    // tokens of each mint are neither made nor lost
    let a: i128 = [TokenAccountRole::MakerAtaA, TokenAccountRole::TemporaryVault, TokenAccountRole::TakerAtaA]
        .iter()
        .map(|r| net(&transfers, *r))
        .sum();
    let b: i128 = [
        TokenAccountRole::MakerAtaB,
        TokenAccountRole::TakerAtaB,
        TokenAccountRole::FeeVault,
        TokenAccountRole::AdminFeeAccount,
        TokenAccountRole::ReceiverAtaB,
    ]
    .iter()
    .map(|r| net(&transfers, *r))
    .sum();
    assert_eq!(a, 0);
    assert_eq!(b, 0);
}

#[test]
fn escrow_errors_have_codes_and_messages() {
    assert_eq!(EscrowError::InvalidAmount.code(), 6000);
    assert_eq!(EscrowError::FeeTooHigh.code(), 6001);
    assert_eq!(EscrowError::AmountNotMatch.code(), 6002);
    assert_eq!(EscrowError::TooEarlyToCancel.code(), 6003);
    assert_eq!(EscrowError::InvalidAmount.message(), "amount of tokens should be over 0");
    assert_eq!(EscrowError::FeeTooHigh.message(), "High fees bps: over 10%");
    assert_eq!(EscrowError::AmountNotMatch.message(), "Amount not match");
    assert_eq!(EscrowError::TooEarlyToCancel.message(), "Too Early to cancel");
}

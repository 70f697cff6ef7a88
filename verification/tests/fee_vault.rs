use lamports_vault::constants::MIN_WITHDRAW_AMOUNT;
use lamports_vault::cpi::{Authority, MintRole, TokenAccountRole, TokenTransfer};
use lamports_vault::error::FeeVaultError;
use lamports_vault::instructions::initialize::{initialize_handler, Initialize};
use lamports_vault::instructions::take::{take_handler, Take};
use lamports_vault::instructions::withdraw_fees::{wtihdraw_fees_handler, WithdrawFees};
use lamports_vault::pubkey::Pubkey;
use lamports_vault::state::escrow_state::EscrowState;
use lamports_vault::state::fee_vault_state::FeeVaultState;

fn key(b: u8) -> Pubkey {
    Pubkey::new_from_array([b; 32])
}

fn fee_vault(total: u64) -> FeeVaultState {
    FeeVaultState { admin: key(9), total_collected: total, bump: 250 }
}

fn withdraw_ctx(total: u64) -> WithdrawFees {
    WithdrawFees { admin: key(9), mint_b_decimals: 9, fee_vault_state: fee_vault(total), fee_vault_state_bump: 251 }
}

#[test]
fn initialize_starts_with_nothing_collected() {
    let mut ctx = Initialize { admin: key(9), fee_vault_state: fee_vault(12_345) };
    initialize_handler(&mut ctx);
    assert_eq!(ctx.fee_vault_state, fee_vault(0));
    assert_eq!(ctx.admin, key(9));
}

#[test]
fn validate_withdraw_needs_one_sol() {
    assert_eq!(fee_vault(MIN_WITHDRAW_AMOUNT).validate_withdraw(), Ok(()));
    assert_eq!(fee_vault(u64::MAX).validate_withdraw(), Ok(()));
    assert_eq!(fee_vault(MIN_WITHDRAW_AMOUNT - 1).validate_withdraw(), Err(FeeVaultError::WithdrawalTooLittle));
    assert_eq!(fee_vault(0).validate_withdraw(), Err(FeeVaultError::WithdrawalTooLittle));
}

#[test]
fn withdraw_fees_within_the_total() {
    let mut ctx = withdraw_ctx(1_000);
    let transfers = wtihdraw_fees_handler(&mut ctx, 400).unwrap();
    assert_eq!(
        transfers,
        vec![TokenTransfer {
            from: TokenAccountRole::FeeVault,
            to: TokenAccountRole::ReceiverAtaB,
            mint: MintRole::B,
            decimals: 9,
            amount: 400,
            authority: Authority::FeeVaultState { admin: key(9), bump: 251 },
        }]
    );
    assert_eq!(ctx.fee_vault_state.total_collected, 600);
    let transfers = wtihdraw_fees_handler(&mut ctx, 600).unwrap();
    assert_eq!(transfers[0].amount, 600);
    assert_eq!(ctx.fee_vault_state.total_collected, 0);
}

#[test]
fn withdraw_fees_refuses_more_than_the_total() {
    let mut ctx = withdraw_ctx(1_000);
    assert_eq!(wtihdraw_fees_handler(&mut ctx, 1_001), Err(FeeVaultError::WithdrawalTooLarge));
    assert_eq!(ctx, withdraw_ctx(1_000));
    let mut empty = withdraw_ctx(0);
    assert_eq!(wtihdraw_fees_handler(&mut empty, 1), Err(FeeVaultError::WithdrawalTooLarge));
    assert!(wtihdraw_fees_handler(&mut empty, 0).is_ok());
}

#[test]
fn collected_fee_can_be_withdrawn_back_to_the_start() {
    let mut take = Take {
        escrow_state: EscrowState {
            maker: key(1),
            mint_a: key(2),
            mint_b: key(3),
            a_amount: 5,
            b_amount: 1_000_000,
            created_at: 0,
            fees_bps: 333,
            seed: 1,
            bump: 255,
        },
        escrow_state_bump: 255,
        mint_a_decimals: 0,
        mint_b_decimals: 9,
        fee_vault_state: fee_vault(77),
    };
    let transfers = take_handler(&mut take, 1);
    let fee = transfers[0].amount;
    assert_eq!(fee, 33_300);
    let mut withdraw = WithdrawFees {
        admin: key(9),
        mint_b_decimals: 9,
        fee_vault_state: take.fee_vault_state,
        fee_vault_state_bump: 250,
    };
    wtihdraw_fees_handler(&mut withdraw, fee).unwrap();
    assert_eq!(withdraw.fee_vault_state, fee_vault(77));
}

#[test]
fn fee_vault_errors_have_codes_and_messages() {
    assert_eq!(FeeVaultError::WithdrawalTooLarge.code(), 6000);
    assert_eq!(FeeVaultError::WithdrawalTooLittle.code(), 6001);
    assert_eq!(FeeVaultError::WithdrawalTooLarge.message(), "Withdrawal too Large");
    assert_eq!(FeeVaultError::WithdrawalTooLittle.message(), "Withdrawal too Little");
}

#[test]
fn fee_total_is_collected_less_withdrawn_over_a_run() {
    let mut init = Initialize { admin: key(9), fee_vault_state: fee_vault(5) };
    initialize_handler(&mut init);
    let mut state = init.fee_vault_state;
    let mut collected: u64 = 0;
    let mut withdrawn: u64 = 0;
    let run: [(bool, u64, u16); 6] =
        [(true, 10_000, 250), (true, 4_000, 1000), (false, 300, 0), (true, 9_999, 7), (false, 950, 0), (false, 1, 0)];
    for (is_take, amount, bps) in run {
        if is_take {
            let mut take = Take {
                escrow_state: EscrowState {
                    maker: key(1),
                    mint_a: key(2),
                    mint_b: key(3),
                    a_amount: 1,
                    b_amount: amount,
                    created_at: 0,
                    fees_bps: bps,
                    seed: 0,
                    bump: 255,
                },
                escrow_state_bump: 255,
                mint_a_decimals: 0,
                mint_b_decimals: 9,
                fee_vault_state: state,
            };
            let transfers = take_handler(&mut take, 0);
            collected += transfers[0].amount;
            state = take.fee_vault_state;
        } else {
            let mut withdraw =
                WithdrawFees { admin: key(9), mint_b_decimals: 9, fee_vault_state: state, fee_vault_state_bump: 250 };
            let result = wtihdraw_fees_handler(&mut withdraw, amount);
            if amount <= collected - withdrawn {
                assert!(result.is_ok());
                withdrawn += amount;
            } else {
                assert_eq!(result, Err(FeeVaultError::WithdrawalTooLarge));
            }
            state = withdraw.fee_vault_state;
        }
        assert_eq!(state.total_collected, collected - withdrawn);
    }
    // 250 + 400 + 6 collected; 300 and 1 withdrawn; the withdrawal of 950 is refused
    assert_eq!(collected, 656);
    assert_eq!(withdrawn, 301);
    assert_eq!(state.total_collected, 355);
}

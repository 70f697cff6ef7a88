use lamports_vault::constants::{ESCROW_SEED, VAULT_SEED, VAULT_STATE, VAULT_STATE_SEED};
use lamports_vault::cpi::{u16_to_le_bytes, Authority, LamportTransfer};
use lamports_vault::pubkey::{bytes_to_vec, Pubkey};

fn key_counting() -> Pubkey {
    let mut bytes = [0u8; 32];
    for (i, b) in bytes.iter_mut().enumerate() {
        *b = i as u8;
    }
    Pubkey::new_from_array(bytes)
}

#[test]
fn seed_prefixes_spell_their_names() {
    assert_eq!(&ESCROW_SEED, b"escrow");
    assert_eq!(&VAULT_STATE, b"vault_state");
    assert_eq!(&VAULT_SEED, b"vault");
    assert_eq!(&VAULT_STATE_SEED, b"state");
}

#[test]
fn u16_little_endian_matches_std() {
    for x in [0u16, 1, 7, 255, 256, 0x0102, 0xabcd, u16::MAX] {
        assert_eq!(u16_to_le_bytes(x), x.to_le_bytes().to_vec());
    }
}

#[test]
fn pubkey_bytes_round_trip() {
    let k = key_counting();
    assert_eq!(k.to_bytes(), k.bytes);
    assert_eq!(k.to_vec(), (0u8..32).collect::<Vec<u8>>());
    assert_eq!(bytes_to_vec(&[9u8, 8, 7]), vec![9u8, 8, 7]);
}

#[test]
fn escrow_signs_with_prefix_seed_maker_and_bump() {
    let k = key_counting();
    let seeds = Authority::EscrowState { seed: 0x0102, maker: k, bump: 254 }.signer_seeds();
    assert_eq!(seeds, vec![b"escrow".to_vec(), vec![2u8, 1], k.bytes.to_vec(), vec![254u8]]);
}

#[test]
fn fee_vault_signs_with_prefix_admin_and_bump() {
    let k = key_counting();
    let seeds = Authority::FeeVaultState { admin: k, bump: 3 }.signer_seeds();
    assert_eq!(seeds, vec![b"vault_state".to_vec(), k.bytes.to_vec(), vec![3u8]]);
}

#[test]
fn signers_of_the_transaction_need_no_seeds() {
    assert!(Authority::Maker.signer_seeds().is_empty());
    assert!(Authority::Taker.signer_seeds().is_empty());
}

#[test]
fn lamport_vault_signs_with_prefix_user_and_bump() {
    let k = key_counting();
    let seeds = LamportTransfer { user: k, vault_bump: 17, amount: 5 }.signer_seeds();
    assert_eq!(seeds, vec![b"vault".to_vec(), k.bytes.to_vec(), vec![17u8]]);
}

use std::str::FromStr;

use anchor_lang::prelude::Pubkey;
use anchor_lang::solana_program::rent::Rent;
use vault::{initialize, VaultAccounts, VaultState, VAULT_SEED, VAULT_STATE_SEED};

const PROGRAM_ID: &str = "FyDvvhk88TLkkYAKNkE2YhrV6g8XDyJVcggWXKLe7jta";

fn fresh_accounts(owner: [u8; 32], owner_lamports: u64) -> VaultAccounts {
    VaultAccounts {
        owner,
        owner_lamports,
        vault_lamports: 0,
        vault_authority: VaultState {
            owner: [0u8; 32],
            current_deposited_lamports: 0,
            vault_bump: 0,
            bump: 0,
            max_withdraw: None,
        },
        vault_authority_lamports: 0,
        vault_authority_open: false,
    }
}

#[test]
fn test_initialize() {
    let program_id = Pubkey::from_str(PROGRAM_ID).unwrap();
    let payer_address = Pubkey::new_from_array([9u8; 32]);
    let (_vault_pda, vault_bump) =
        Pubkey::find_program_address(&[&VAULT_SEED, payer_address.as_ref()], &program_id);
    let (_vault_state_pda, vault_state_bump) =
        Pubkey::find_program_address(&[&VAULT_STATE_SEED, payer_address.as_ref()], &program_id);

    let rent = Rent::default();
    let mut accounts = fresh_accounts(payer_address.to_bytes(), 20_000_000_000);
    let res = initialize(&mut accounts, None, vault_bump, vault_state_bump, rent.minimum_balance(0));
    assert!(res.is_ok());

    let vault_state = accounts.vault_authority;
    assert_eq!(
        vault_state.bump, vault_state_bump,
        "vault state bump assertion failed:  expect: {}, got: {}",
        vault_state_bump, vault_state.bump
    );
    assert_eq!(
        vault_state.vault_bump, vault_bump,
        "vault bump assertion failed:  expect: {}, got: {}",
        vault_bump, vault_state.vault_bump
    );
    assert_eq!(
        vault_state.owner,
        payer_address.to_bytes(),
        "expect address to be the payer"
    );
    assert_eq!(
        accounts.vault_lamports,
        rent.minimum_balance(0),
        "initialized with the wrong ammount"
    );
}

#[test]
fn initialize_records_limit_and_rent() {
    let mut accounts = fresh_accounts([3u8; 32], 1_000);
    let t = initialize(&mut accounts, Some(77), 250, 251, 400).unwrap();
    assert_eq!(t.lamports, 400);
    assert!(t.signer.is_none());
    assert_eq!(accounts.owner_lamports, 600);
    assert_eq!(accounts.vault_lamports, 400);
    assert_eq!(accounts.vault_authority.current_deposited_lamports, 400);
    assert_eq!(accounts.vault_authority.max_withdraw, Some(77));
    assert_eq!(accounts.vault_authority.vault_bump, 250);
    assert_eq!(accounts.vault_authority.bump, 251);
    assert!(accounts.vault_authority_open);
}

#[test]
fn initialize_refuses_owner_below_rent() {
    let mut accounts = fresh_accounts([3u8; 32], 399);
    let res = initialize(&mut accounts, None, 1, 2, 400);
    assert_eq!(res.err(), Some(vault::ErrorCode::InvalidTransferNotRentExempt));
    assert_eq!(accounts.owner_lamports, 399);
    assert_eq!(accounts.vault_lamports, 0);
    assert_eq!(accounts.vault_authority.current_deposited_lamports, 0);
    assert!(!accounts.vault_authority_open);
}

#[test]
fn initialize_with_exactly_rent() {
    let mut accounts = fresh_accounts([3u8; 32], 400);
    assert!(initialize(&mut accounts, None, 1, 2, 400).is_ok());
    assert_eq!(accounts.owner_lamports, 0);
    assert_eq!(accounts.vault_lamports, 400);
}

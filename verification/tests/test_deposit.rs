use anchor_lang::solana_program::rent::Rent;
use vault::{deposit, initialize, ErrorCode, Party, VaultAccounts, VaultState};

fn fresh_accounts(owner: [u8; 32], owner_lamports: u64) -> VaultAccounts {
    VaultAccounts {
        owner,
        owner_lamports,
        vault_lamports: 0,
        vault_authority: VaultState {
            owner: [0u8; 32],
            current_deposited_lamports: 0,
            vault_bump: 0,
            bump: 0,
            max_withdraw: None,
        },
        vault_authority_lamports: 0,
        vault_authority_open: false,
    }
}

#[test]
fn test_deposit() {
    let rent = Rent::default();
    let rent_exempt_lamports = rent.minimum_balance(0);
    let mut accounts = fresh_accounts([5u8; 32], 20_000_000_000);

    let res = initialize(&mut accounts, None, 254, 253, rent_exempt_lamports);
    assert!(res.is_ok());

    let deposit_lamports = 5_000_000_000;
    let deposit_res = deposit(&mut accounts, deposit_lamports, rent_exempt_lamports);
    assert!(
        deposit_res.is_ok(),
        "deposit failed with err: {:?}",
        deposit_res.err()
    );

    let balance = accounts.vault_lamports;
    assert_eq!(
        balance,
        rent_exempt_lamports + deposit_lamports,
        "vault balance mismatch, expect: {}, got: {}",
        rent_exempt_lamports + deposit_lamports,
        balance
    );
}

#[test]
fn deposit_moves_lamports_and_records_them() {
    let mut accounts = fresh_accounts([5u8; 32], 1_000);
    initialize(&mut accounts, None, 9, 8, 100).unwrap();
    let t = deposit(&mut accounts, 300, 100).unwrap();
    assert_eq!(t.from, Party::Owner);
    assert_eq!(t.to, Party::Vault);
    assert_eq!(t.lamports, 300);
    let signer = t.signer.unwrap();
    assert_eq!(signer.owner, [5u8; 32]);
    assert_eq!(signer.vault_bump, 9);
    assert_eq!(accounts.owner_lamports, 600);
    assert_eq!(accounts.vault_lamports, 400);
    assert_eq!(accounts.vault_authority.current_deposited_lamports, 400);
}

#[test]
fn deposit_refuses_counter_overflow() {
    let mut accounts = fresh_accounts([5u8; 32], 1_000);
    accounts.vault_authority.current_deposited_lamports = u64::MAX - 10;
    let res = deposit(&mut accounts, 11, 0);
    assert_eq!(res.err(), Some(ErrorCode::InvalidTransferOverflow));
    assert_eq!(accounts.owner_lamports, 1_000);
    assert_eq!(accounts.vault_authority.current_deposited_lamports, u64::MAX - 10);
    assert!(deposit(&mut accounts, 10, 0).is_ok());
    assert_eq!(accounts.vault_authority.current_deposited_lamports, u64::MAX);
}

#[test]
fn deposit_refuses_more_than_owner_holds() {
    let mut accounts = fresh_accounts([5u8; 32], 1_000);
    let res = deposit(&mut accounts, 1_001, 0);
    assert_eq!(res.err(), Some(ErrorCode::InsufficientFunds));
    assert_eq!(accounts.owner_lamports, 1_000);
    assert_eq!(accounts.vault_lamports, 0);
}

#[test]
fn deposit_refuses_leaving_owner_below_rent() {
    let mut accounts = fresh_accounts([5u8; 32], 1_000);
    let res = deposit(&mut accounts, 901, 100);
    assert_eq!(res.err(), Some(ErrorCode::InvalidTransferNotRentExempt));
    assert_eq!(accounts.owner_lamports, 1_000);
    assert!(deposit(&mut accounts, 900, 100).is_ok());
    assert_eq!(accounts.owner_lamports, 100);
    assert_eq!(accounts.vault_lamports, 900);
}

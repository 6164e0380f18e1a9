use vstd::prelude::*;

use crate::error::ErrorCode;
use crate::state::{Party, Transfer, VaultAccounts, VaultState};

verus! {

/// The accounts of the instruction that opens a vault.
pub type Initialize = VaultAccounts;

/// What opening a vault does to `ctx` and which transfer it asks for: the
/// owner pays the rent-exempt minimum into the vault, and the open state
/// account records the owner, that minimum as deposited, both bumps and the
/// withdrawal limit.
pub open spec fn initialize_outcome(
    ctx: Initialize,
    vault_bump: u8,
    vault_authority_bump: u8,
    max_withdraw: Option<u64>,
    rent_exempt_lamports: u64,
) -> Result<(Initialize, Transfer), ErrorCode> {
    if ctx.owner_lamports < rent_exempt_lamports {
        Err(ErrorCode::InvalidTransferNotRentExempt)
    } else {
        let t = Transfer {
            from: Party::Owner,
            to: Party::Vault,
            lamports: rent_exempt_lamports,
            signer: None,
        };
        let state = VaultState {
            owner: ctx.owner,
            current_deposited_lamports: rent_exempt_lamports,
            vault_bump: vault_bump,
            bump: vault_authority_bump,
            max_withdraw: max_withdraw,
        };
        Ok(
            (
                VaultAccounts {
                    vault_authority: state,
                    vault_authority_open: true,
                    ..ctx.apply_transfer(t)
                },
                t,
            ),
        )
    }
}

/// Opens the vault of `ctx.owner`. `rent_exempt_lamports` is the rent-exempt
/// minimum of an account without data. On success `ctx` holds the accounts
/// after the returned transfer, which the caller performs.
pub fn deposit_handler(
    ctx: &mut Initialize,
    vault_bump: u8,
    vault_authority_bump: u8,
    max_withdraw: Option<u64>,
    rent_exempt_lamports: u64,
) -> (r: Result<Transfer, ErrorCode>)
    requires
        old(ctx).wf(),
    ensures
        match r {
            Ok(t) => initialize_outcome(
                *old(ctx),
                vault_bump,
                vault_authority_bump,
                max_withdraw,
                rent_exempt_lamports,
            ) == Ok::<(Initialize, Transfer), ErrorCode>((*final(ctx), t)),
            Err(e) => initialize_outcome(
                *old(ctx),
                vault_bump,
                vault_authority_bump,
                max_withdraw,
                rent_exempt_lamports,
            ) == Err::<(Initialize, Transfer), ErrorCode>(e) && *final(ctx) == *old(ctx),
        },
{
    if ctx.owner_lamports.checked_sub(rent_exempt_lamports).is_none() {
        return Err(ErrorCode::InvalidTransferNotRentExempt);
    }
    let t = Transfer {
        from: Party::Owner,
        to: Party::Vault,
        lamports: rent_exempt_lamports,
        signer: None,
    };
    ctx.apply(&t);
    ctx.vault_authority = VaultState {
        owner: ctx.owner,
        current_deposited_lamports: rent_exempt_lamports,
        vault_bump: vault_bump,
        bump: vault_authority_bump,
        max_withdraw: max_withdraw,
    };
    ctx.vault_authority_open = true;
    Ok(t)
}

} // verus!

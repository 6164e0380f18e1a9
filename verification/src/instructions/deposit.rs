use vstd::prelude::*;

use crate::error::ErrorCode;
use crate::state::{Party, Transfer, VaultAccounts, VaultSigner, VaultState};

verus! {

/// The accounts of the instruction that pays lamports into the vault.
pub type Deposit = VaultAccounts;

/// What a deposit of `lamports_to_transfer` does to `ctx` and which transfer
/// it asks for. The checks come in this order: the recorded deposits must not
/// overflow, the owner must hold the amount, and the owner must keep the
/// rent-exempt minimum. Then the amount moves from the owner to the vault,
/// signed with the vault's seeds, and is added to the recorded deposits.
pub open spec fn deposit_outcome(
    ctx: Deposit,
    lamports_to_transfer: u64,
    rent_exempt_lamports: u64,
) -> Result<(Deposit, Transfer), ErrorCode> {
    let deposited = ctx.vault_authority.current_deposited_lamports;
    if deposited + lamports_to_transfer > u64::MAX {
        Err(ErrorCode::InvalidTransferOverflow)
    } else if ctx.owner_lamports < lamports_to_transfer {
        Err(ErrorCode::InsufficientFunds)
    } else if ctx.owner_lamports - lamports_to_transfer < rent_exempt_lamports {
        Err(ErrorCode::InvalidTransferNotRentExempt)
    } else {
        let t = Transfer {
            from: Party::Owner,
            to: Party::Vault,
            lamports: lamports_to_transfer,
            signer: Some(VaultSigner { owner: ctx.owner, vault_bump: ctx.vault_authority.vault_bump }),
        };
        let state = VaultState {
            current_deposited_lamports: (deposited + lamports_to_transfer) as u64,
            ..ctx.vault_authority
        };
        Ok((VaultAccounts { vault_authority: state, ..ctx.apply_transfer(t) }, t))
    }
}

/// Pays `lamports_to_transfer` from the owner into the vault.
/// `rent_exempt_lamports` is the rent-exempt minimum of an account without
/// data. On success `ctx` holds the accounts after the returned transfer,
/// which the caller performs.
pub fn handler(ctx: &mut Deposit, lamports_to_transfer: u64, rent_exempt_lamports: u64) -> (r:
    Result<Transfer, ErrorCode>)
    requires
        old(ctx).wf(),
    ensures
        match r {
            Ok(t) => deposit_outcome(*old(ctx), lamports_to_transfer, rent_exempt_lamports) == Ok::<
                (Deposit, Transfer),
                ErrorCode,
            >((*final(ctx), t)),
            Err(e) => deposit_outcome(*old(ctx), lamports_to_transfer, rent_exempt_lamports)
                == Err::<(Deposit, Transfer), ErrorCode>(e) && *final(ctx) == *old(ctx),
        },
{
    let new_deposited_lamports =
        match ctx.vault_authority.current_deposited_lamports.checked_add(lamports_to_transfer) {
        Some(v) => v,
        None => return Err(ErrorCode::InvalidTransferOverflow),
    };
    let reminded_lamports = match ctx.owner_lamports.checked_sub(lamports_to_transfer) {
        Some(v) => v,
        None => return Err(ErrorCode::InsufficientFunds),
    };
    if reminded_lamports < rent_exempt_lamports {
        return Err(ErrorCode::InvalidTransferNotRentExempt);
    }
    let t = Transfer {
        from: Party::Owner,
        to: Party::Vault,
        lamports: lamports_to_transfer,
        signer: Some(VaultSigner { owner: ctx.owner, vault_bump: ctx.vault_authority.vault_bump }),
    };
    ctx.apply(&t);
    ctx.vault_authority.current_deposited_lamports = new_deposited_lamports;
    Ok(t)
}

} // verus!

use vstd::prelude::*;

use crate::error::ErrorCode;
use crate::state::{Party, Transfer, VaultAccounts, VaultSigner};

verus! {

/// The accounts of the instruction that takes lamports out of the vault.
pub type Withdraw = VaultAccounts;

/// What a withdrawal of `amount_to_withdraw` does to `ctx` and which transfer
/// it asks for. The checks come in this order: the amount must be positive,
/// it must not exceed the state's `max_withdraw` where one is set, the vault
/// must hold it, and it must not be the vault's whole balance (emptying the
/// vault is what closing is for). Then the amount moves from the vault to the owner,
/// signed with the vault's seeds; the recorded deposits stay as they are.
pub open spec fn withdraw_outcome(ctx: Withdraw, amount_to_withdraw: u64) -> Result<
    (Withdraw, Transfer),
    ErrorCode,
> {
    if amount_to_withdraw == 0 {
        Err(ErrorCode::InvalidWithdrawAmount)
    } else if ctx.vault_authority.max_withdraw matches Some(m) && m < amount_to_withdraw {
        Err(ErrorCode::InvalidMaxWithdrawExcceded)
    } else if ctx.vault_lamports < amount_to_withdraw {
        Err(ErrorCode::InsufficientFundsVault)
    } else if ctx.vault_lamports == amount_to_withdraw {
        Err(ErrorCode::InvalidWithdrawDrainedVault)
    } else {
        let t = Transfer {
            from: Party::Vault,
            to: Party::Owner,
            lamports: amount_to_withdraw,
            signer: Some(VaultSigner { owner: ctx.owner, vault_bump: ctx.vault_authority.vault_bump }),
        };
        Ok((ctx.apply_transfer(t), t))
    }
}

/// Takes `amount_to_withdraw` out of the vault and gives it to the owner.
/// On success `ctx` holds the accounts after the returned transfer, which the
/// caller performs.
pub fn withdraw_handler(ctx: &mut Withdraw, amount_to_withdraw: u64) -> (r: Result<
    Transfer,
    ErrorCode,
>)
    requires
        old(ctx).wf(),
    ensures
        match r {
            Ok(t) => withdraw_outcome(*old(ctx), amount_to_withdraw) == Ok::<
                (Withdraw, Transfer),
                ErrorCode,
            >((*final(ctx), t)),
            Err(e) => withdraw_outcome(*old(ctx), amount_to_withdraw) == Err::<
                (Withdraw, Transfer),
                ErrorCode,
            >(e) && *final(ctx) == *old(ctx),
        },
{
    if amount_to_withdraw == 0 {
        return Err(ErrorCode::InvalidWithdrawAmount);
    }
    match ctx.vault_authority.max_withdraw {
        Some(amount) => {
            if amount < amount_to_withdraw {
                return Err(ErrorCode::InvalidMaxWithdrawExcceded);
            }
        },
        None => {},
    }
    if ctx.vault_lamports.checked_sub(amount_to_withdraw).is_none() {
        return Err(ErrorCode::InsufficientFundsVault);
    }
    if ctx.vault_lamports == amount_to_withdraw {
        return Err(ErrorCode::InvalidWithdrawDrainedVault);
    }
    let t = Transfer {
        from: Party::Vault,
        to: Party::Owner,
        lamports: amount_to_withdraw,
        signer: Some(VaultSigner { owner: ctx.owner, vault_bump: ctx.vault_authority.vault_bump }),
    };
    ctx.apply(&t);
    Ok(t)
}

} // verus!

use vstd::prelude::*;

use crate::error::ErrorCode;
use crate::state::{Party, Transfer, VaultAccounts, VaultSigner};

verus! {

/// The accounts of the instruction that closes the vault.
pub type Close = VaultAccounts;

/// What closing does to `ctx` and which transfer it asks for: every lamport
/// of the vault moves to the owner, signed with the vault's seeds; then the
/// state account is closed, its lamports going to the owner as well. It never
/// fails.
pub open spec fn close_outcome(ctx: Close) -> Result<(Close, Transfer), ErrorCode> {
    let t = Transfer {
        from: Party::Vault,
        to: Party::Owner,
        lamports: ctx.vault_lamports,
        signer: Some(VaultSigner { owner: ctx.owner, vault_bump: ctx.vault_authority.vault_bump }),
    };
    let emptied = ctx.apply_transfer(t);
    let closed = VaultAccounts {
        owner_lamports: (emptied.owner_lamports + ctx.vault_authority_lamports) as u64,
        vault_authority_lamports: 0,
        vault_authority_open: false,
        ..emptied
    };
    Ok((closed, t))
}

/// Empties the vault into the owner's account and closes the state account in
/// the owner's favour. On success `ctx` holds the accounts after the
/// instruction. The caller performs the returned transfer; the state
/// account's closing is performed by the program's account constraint at the
/// end of the instruction.
pub fn close_handler(ctx: &mut Close) -> (r: Result<Transfer, ErrorCode>)
    requires
        old(ctx).wf(),
    ensures
        match r {
            Ok(t) => close_outcome(*old(ctx)) == Ok::<(Close, Transfer), ErrorCode>(
                (*final(ctx), t),
            ),
            Err(e) => close_outcome(*old(ctx)) == Err::<(Close, Transfer), ErrorCode>(e)
                && *final(ctx) == *old(ctx),
        },
{
    let t = Transfer {
        from: Party::Vault,
        to: Party::Owner,
        lamports: ctx.vault_lamports,
        signer: Some(VaultSigner { owner: ctx.owner, vault_bump: ctx.vault_authority.vault_bump }),
    };
    ctx.apply(&t);
    ctx.owner_lamports = ctx.owner_lamports + ctx.vault_authority_lamports;
    ctx.vault_authority_lamports = 0;
    ctx.vault_authority_open = false;
    Ok(t)
}

} // verus!

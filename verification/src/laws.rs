use vstd::prelude::*;

use crate::instructions::close::close_outcome;
use crate::instructions::deposit::deposit_outcome;
use crate::instructions::initialize::initialize_outcome;
use crate::instructions::withdraw::withdraw_outcome;
use crate::error::ErrorCode;
use crate::state::{Party, Transfer, VaultAccounts, VaultSigner};

verus! {

/// Opening a vault succeeds exactly when the owner holds the rent-exempt
/// minimum, whatever the withdrawal limit. It then pays that minimum, unsigned,
/// from the owner into the vault, opens the state account and records in it
/// the owner's key, the minimum as deposited, both bumps and the limit exactly
/// as given. Otherwise it is refused as not rent exempt.
pub proof fn law_initialize_succeeds_and_records(
    ctx: VaultAccounts,
    vault_bump: u8,
    vault_authority_bump: u8,
    max_withdraw: Option<u64>,
    rent_exempt_lamports: u64,
)
    requires
        ctx.wf(),
    ensures
        (initialize_outcome(ctx, vault_bump, vault_authority_bump, max_withdraw, rent_exempt_lamports)
            is Ok) <==> ctx.owner_lamports >= rent_exempt_lamports,
        ctx.owner_lamports < rent_exempt_lamports ==> initialize_outcome(
            ctx,
            vault_bump,
            vault_authority_bump,
            max_withdraw,
            rent_exempt_lamports,
        ) == Err::<(VaultAccounts, Transfer), ErrorCode>(ErrorCode::InvalidTransferNotRentExempt),
        initialize_outcome(ctx, vault_bump, vault_authority_bump, max_withdraw, rent_exempt_lamports)
            matches Ok((c, t)) ==> {
            &&& t.from == Party::Owner
            &&& t.to == Party::Vault
            &&& t.lamports == rent_exempt_lamports
            &&& t.signer is None
            &&& c.owner == ctx.owner
            &&& c.owner_lamports == ctx.owner_lamports - rent_exempt_lamports
            &&& c.vault_lamports == ctx.vault_lamports + rent_exempt_lamports
            &&& c.vault_authority_lamports == ctx.vault_authority_lamports
            &&& c.vault_authority_open
            &&& c.vault_authority.owner == ctx.owner
            &&& c.vault_authority.current_deposited_lamports == rent_exempt_lamports
            &&& c.vault_authority.vault_bump == vault_bump
            &&& c.vault_authority.bump == vault_authority_bump
            &&& c.vault_authority.max_withdraw == max_withdraw
        },
{
}

/// A deposit succeeds exactly when the recorded deposits can grow by the
/// amount, the owner holds the amount, and the owner keeps the rent-exempt
/// minimum afterwards; there is no lower bound on the amount. Refusals come
/// in that order. On success the amount moves from the owner to the vault,
/// signed with the vault's own seeds, and is added to the recorded deposits;
/// nothing else changes.
pub proof fn law_deposit_succeeds_and_moves(
    ctx: VaultAccounts,
    amount: u64,
    rent_exempt_lamports: u64,
)
    requires
        ctx.wf(),
    ensures
        (deposit_outcome(ctx, amount, rent_exempt_lamports) is Ok) <==> {
            &&& ctx.vault_authority.current_deposited_lamports + amount <= u64::MAX
            &&& amount <= ctx.owner_lamports
            &&& ctx.owner_lamports - amount >= rent_exempt_lamports
        },
        ctx.vault_authority.current_deposited_lamports + amount > u64::MAX ==> deposit_outcome(
            ctx,
            amount,
            rent_exempt_lamports,
        ) == Err::<(VaultAccounts, Transfer), ErrorCode>(ErrorCode::InvalidTransferOverflow),
        ctx.vault_authority.current_deposited_lamports + amount <= u64::MAX && amount
            > ctx.owner_lamports ==> deposit_outcome(ctx, amount, rent_exempt_lamports) == Err::<(VaultAccounts, Transfer), ErrorCode>(ErrorCode::InsufficientFunds),
        ctx.vault_authority.current_deposited_lamports + amount <= u64::MAX && amount
            <= ctx.owner_lamports && ctx.owner_lamports - amount < rent_exempt_lamports
            ==> deposit_outcome(ctx, amount, rent_exempt_lamports) == Err::<(VaultAccounts, Transfer), ErrorCode>(ErrorCode::InvalidTransferNotRentExempt),
        deposit_outcome(ctx, amount, rent_exempt_lamports) matches Ok((c, t)) ==> {
            &&& t.from == Party::Owner
            &&& t.to == Party::Vault
            &&& t.lamports == amount
            &&& t.signer == Some(
                VaultSigner { owner: ctx.owner, vault_bump: ctx.vault_authority.vault_bump },
            )
            &&& c.owner == ctx.owner
            &&& c.owner_lamports == ctx.owner_lamports - amount
            &&& c.vault_lamports == ctx.vault_lamports + amount
            &&& c.vault_authority_lamports == ctx.vault_authority_lamports
            &&& c.vault_authority_open == ctx.vault_authority_open
            &&& c.vault_authority.current_deposited_lamports
                == ctx.vault_authority.current_deposited_lamports + amount
            &&& c.vault_authority.owner == ctx.vault_authority.owner
            &&& c.vault_authority.vault_bump == ctx.vault_authority.vault_bump
            &&& c.vault_authority.bump == ctx.vault_authority.bump
            &&& c.vault_authority.max_withdraw == ctx.vault_authority.max_withdraw
        },
{
}

/// A withdrawal succeeds exactly when the amount is positive, within the
/// stored limit where one is set, and below the vault's balance. Refusals
/// come in the order: zero amount, above the limit, more than the vault holds,
/// the vault's whole balance. On success the amount moves from the vault to
/// the owner, signed with the vault's own seeds, and the state is untouched.
pub proof fn law_withdraw_succeeds_and_moves(ctx: VaultAccounts, amount: u64)
    requires
        ctx.wf(),
    ensures
        (withdraw_outcome(ctx, amount) is Ok) <==> {
            &&& amount > 0
            &&& ctx.vault_authority.max_withdraw matches Some(m) ==> amount <= m
            &&& amount < ctx.vault_lamports
        },
        amount == 0 ==> withdraw_outcome(ctx, amount) == Err::<(VaultAccounts, Transfer), ErrorCode>(ErrorCode::InvalidWithdrawAmount),
        amount > 0 && (ctx.vault_authority.max_withdraw matches Some(m) && amount > m)
            ==> withdraw_outcome(ctx, amount) == Err::<(VaultAccounts, Transfer), ErrorCode>(ErrorCode::InvalidMaxWithdrawExcceded),
        amount > 0 && (ctx.vault_authority.max_withdraw matches Some(m) ==> amount <= m) && amount
            > ctx.vault_lamports ==> withdraw_outcome(ctx, amount) == Err::<(VaultAccounts, Transfer), ErrorCode>(ErrorCode::InsufficientFundsVault),
        amount > 0 && (ctx.vault_authority.max_withdraw matches Some(m) ==> amount <= m) && amount
            == ctx.vault_lamports ==> withdraw_outcome(ctx, amount) == Err::<(VaultAccounts, Transfer), ErrorCode>(ErrorCode::InvalidWithdrawDrainedVault),
        withdraw_outcome(ctx, amount) matches Ok((c, t)) ==> {
            &&& t.from == Party::Vault
            &&& t.to == Party::Owner
            &&& t.lamports == amount
            &&& t.signer == Some(
                VaultSigner { owner: ctx.owner, vault_bump: ctx.vault_authority.vault_bump },
            )
            &&& c.owner == ctx.owner
            &&& c.owner_lamports == ctx.owner_lamports + amount
            &&& c.vault_lamports == ctx.vault_lamports - amount
            &&& c.vault_authority_lamports == ctx.vault_authority_lamports
            &&& c.vault_authority_open == ctx.vault_authority_open
            &&& c.vault_authority == ctx.vault_authority
        },
{
}

/// Closing always succeeds. Its transfer takes the vault's whole balance to
/// the owner and is signed with the vault's own seeds (the owner's key and
/// the vault's bump, not the state account's); the state account is closed
/// and its lamports go to the owner as well.
pub proof fn law_close_succeeds_signed_by_vault(ctx: VaultAccounts)
    requires
        ctx.wf(),
    ensures
        close_outcome(ctx) matches Ok((c, t)) && {
            &&& t.from == Party::Vault
            &&& t.to == Party::Owner
            &&& t.lamports == ctx.vault_lamports
            &&& t.signer == Some(
                VaultSigner { owner: ctx.owner, vault_bump: ctx.vault_authority.vault_bump },
            )
            &&& c.owner == ctx.owner
            &&& c.owner_lamports == ctx.owner_lamports + ctx.vault_lamports
                + ctx.vault_authority_lamports
            &&& c.vault_lamports == 0
            &&& c.vault_authority_lamports == 0
            &&& !c.vault_authority_open
        },
{
}

/// Every transfer out of the vault is signed with the vault's own seeds:
/// the vault seed, the owner's key and the vault's bump.
pub proof fn law_vault_transfers_signed_with_vault_seeds(ctx: VaultAccounts, amount: u64)
    requires
        ctx.wf(),
    ensures
        withdraw_outcome(ctx, amount) matches Ok((_, t)) ==> t.signer matches Some(s)
            && s.spec_seeds() == seq![
            crate::constants::VAULT_SEED@,
            ctx.owner@,
            seq![ctx.vault_authority.vault_bump],
        ],
        close_outcome(ctx) matches Ok((_, t)) && t.signer matches Some(s) && s.spec_seeds()
            == seq![crate::constants::VAULT_SEED@, ctx.owner@, seq![ctx.vault_authority.vault_bump]],
{
}

/// No instruction creates or destroys lamports: after any successful
/// instruction the owner and the vault hold together what they held before,
/// so the accounts stay well formed.
pub proof fn law_lamports_conserved(
    ctx: VaultAccounts,
    vault_bump: u8,
    vault_authority_bump: u8,
    max_withdraw: Option<u64>,
    rent_exempt_lamports: u64,
    amount: u64,
)
    requires
        ctx.wf(),
    ensures
        initialize_outcome(ctx, vault_bump, vault_authority_bump, max_withdraw, rent_exempt_lamports)
            matches Ok((c, _)) ==> c.total_lamports() == ctx.total_lamports() && c.wf(),
        deposit_outcome(ctx, amount, rent_exempt_lamports) matches Ok((c, _))
            ==> c.total_lamports() == ctx.total_lamports() && c.wf(),
        withdraw_outcome(ctx, amount) matches Ok((c, _)) ==> c.total_lamports()
            == ctx.total_lamports() && c.wf(),
        close_outcome(ctx) matches Ok((c, _)) ==> c.total_lamports() == ctx.total_lamports()
            && c.wf(),
{
}

/// The balances after a successful instruction are those that its returned
/// transfer produces: a transfer between the two different parties of no more
/// than the payer holds. Closing adds to it the lamports of the closed state
/// account, which go to the owner.
pub proof fn law_outcome_is_its_transfer(
    ctx: VaultAccounts,
    vault_bump: u8,
    vault_authority_bump: u8,
    max_withdraw: Option<u64>,
    rent_exempt_lamports: u64,
    amount: u64,
)
    requires
        ctx.wf(),
    ensures
        initialize_outcome(ctx, vault_bump, vault_authority_bump, max_withdraw, rent_exempt_lamports)
            matches Ok((c, t)) ==> t.from != t.to && t.lamports <= ctx.balance(t.from)
            && c.owner_lamports == ctx.apply_transfer(t).owner_lamports
            && c.vault_lamports == ctx.apply_transfer(t).vault_lamports,
        deposit_outcome(ctx, amount, rent_exempt_lamports) matches Ok((c, t)) ==> t.from != t.to
            && t.lamports <= ctx.balance(t.from) && c.owner_lamports == ctx.apply_transfer(
            t,
        ).owner_lamports && c.vault_lamports == ctx.apply_transfer(t).vault_lamports,
        withdraw_outcome(ctx, amount) matches Ok((c, t)) ==> t.from != t.to && t.lamports
            <= ctx.balance(t.from) && c == ctx.apply_transfer(t),
        close_outcome(ctx) matches Ok((c, t)) ==> t.from != t.to && t.lamports <= ctx.balance(
            t.from,
        ) && c.vault_lamports == ctx.apply_transfer(t).vault_lamports && c.owner_lamports
            == ctx.apply_transfer(t).owner_lamports + ctx.vault_authority_lamports,
{
}

/// A withdrawal that succeeds takes a positive amount that the state's
/// `max_withdraw`, where one is set, allows, and leaves the vault with
/// lamports.
pub proof fn law_withdraw_within_limits(ctx: VaultAccounts, amount: u64)
    requires
        withdraw_outcome(ctx, amount) is Ok,
    ensures
        0 < amount < ctx.vault_lamports,
        ctx.vault_authority.max_withdraw matches Some(m) ==> amount <= m,
{
}

/// A deposit that succeeds leaves the owner with at least the rent-exempt
/// minimum.
pub proof fn law_deposit_keeps_owner_rent_exempt(
    ctx: VaultAccounts,
    amount: u64,
    rent_exempt_lamports: u64,
)
    requires
        deposit_outcome(ctx, amount, rent_exempt_lamports) is Ok,
    ensures
        deposit_outcome(ctx, amount, rent_exempt_lamports) matches Ok((c, _))
            && c.owner_lamports >= rent_exempt_lamports,
{
}

/// Withdrawing what was just deposited into a vault that held lamports
/// succeeds, unless the amount is zero or above `max_withdraw`, and gives the owner and the vault back the balances
/// they had before the deposit.
pub proof fn law_deposit_then_withdraw_restores(
    ctx: VaultAccounts,
    amount: u64,
    rent_exempt_lamports: u64,
)
    requires
        ctx.wf(),
        ctx.vault_lamports > 0,
        deposit_outcome(ctx, amount, rent_exempt_lamports) is Ok,
        amount > 0,
        ctx.vault_authority.max_withdraw matches Some(m) ==> amount <= m,
    ensures
        deposit_outcome(ctx, amount, rent_exempt_lamports) matches Ok((c1, _)) && withdraw_outcome(
            c1,
            amount,
        ) matches Ok((c2, _)) && c2.owner_lamports == ctx.owner_lamports && c2.vault_lamports
            == ctx.vault_lamports,
{
}

/// Closing always succeeds, empties the vault, closes the state account and
/// gives the owner all the lamports of both.
pub proof fn law_close_empties_vault(ctx: VaultAccounts)
    requires
        ctx.wf(),
    ensures
        close_outcome(ctx) matches Ok((c, _)) && c.vault_lamports == 0
            && c.vault_authority_lamports == 0 && !c.vault_authority_open && c.owner_lamports
            == ctx.owner_lamports + ctx.vault_lamports + ctx.vault_authority_lamports,
{
}

/// While the vault is open its owner, its bumps and its withdrawal limit
/// never change, and only a deposit changes the recorded deposits, by exactly
/// the deposited amount. Deposits and withdrawals leave the state account
/// open with its lamports; closing leaves the last record as it was but
/// closes the account, so it holds no record any more.
pub proof fn law_state_fixed_after_initialize(
    ctx: VaultAccounts,
    amount: u64,
    rent_exempt_lamports: u64,
)
    ensures
        deposit_outcome(ctx, amount, rent_exempt_lamports) matches Ok((c, _)) ==> {
            &&& c.vault_authority.owner == ctx.vault_authority.owner
            &&& c.vault_authority.vault_bump == ctx.vault_authority.vault_bump
            &&& c.vault_authority.bump == ctx.vault_authority.bump
            &&& c.vault_authority.max_withdraw == ctx.vault_authority.max_withdraw
            &&& c.vault_authority.current_deposited_lamports
                == ctx.vault_authority.current_deposited_lamports + amount
        },
        deposit_outcome(ctx, amount, rent_exempt_lamports) matches Ok((c, _))
            ==> c.vault_authority_open == ctx.vault_authority_open
            && c.vault_authority_lamports == ctx.vault_authority_lamports,
        withdraw_outcome(ctx, amount) matches Ok((c, _)) ==> c.vault_authority
            == ctx.vault_authority && c.vault_authority_open == ctx.vault_authority_open
            && c.vault_authority_lamports == ctx.vault_authority_lamports,
        close_outcome(ctx) matches Ok((c, _)) ==> c.vault_authority == ctx.vault_authority
            && !c.vault_authority_open,
{
}

/// The recorded deposits never fall below what the vault holds: opening a
/// vault that held nothing records exactly the lamports it then holds, and
/// deposits, withdrawals and closing keep the recorded deposits at least the
/// vault's balance.
pub proof fn law_recorded_deposits_cover_vault(
    ctx: VaultAccounts,
    vault_bump: u8,
    vault_authority_bump: u8,
    max_withdraw: Option<u64>,
    rent_exempt_lamports: u64,
    amount: u64,
)
    requires
        ctx.wf(),
    ensures
        ctx.vault_lamports == 0 ==> (initialize_outcome(
            ctx,
            vault_bump,
            vault_authority_bump,
            max_withdraw,
            rent_exempt_lamports,
        ) matches Ok((c, _)) ==> c.vault_authority.current_deposited_lamports == c.vault_lamports
            == rent_exempt_lamports),
        ctx.vault_authority.current_deposited_lamports >= ctx.vault_lamports ==> {
            &&& deposit_outcome(ctx, amount, rent_exempt_lamports) matches Ok((c, _))
                ==> c.vault_authority.current_deposited_lamports >= c.vault_lamports
            &&& withdraw_outcome(ctx, amount) matches Ok((c, _))
                ==> c.vault_authority.current_deposited_lamports >= c.vault_lamports
            &&& close_outcome(ctx) matches Ok((c, _))
                ==> c.vault_authority.current_deposited_lamports >= c.vault_lamports
        },
{
}

} // verus!

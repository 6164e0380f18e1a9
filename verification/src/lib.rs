pub mod constants;
pub mod error;
pub mod instructions;
pub mod laws;
pub mod state;

use vstd::prelude::*;

pub use constants::{ANCHOR_DISCRIMINATOR_SIZE, VAULT_SEED, VAULT_STATE_SEED};
pub use error::ErrorCode;
pub use instructions::close::{close_handler, close_outcome, Close};
pub use instructions::deposit::{deposit_outcome, handler, Deposit};
pub use instructions::initialize::{deposit_handler, initialize_outcome, Initialize};
pub use instructions::withdraw::{withdraw_handler, withdraw_outcome, Withdraw};
pub use state::{Party, Transfer, VaultAccounts, VaultSigner, VaultState};

verus! {

/// The program's `initialize` instruction: opens the vault with the given
/// withdrawal limit. The bumps are those of the vault's and the state's
/// program addresses; `rent_exempt_lamports` is the rent-exempt minimum of an
/// account without data.
pub fn initialize(
    ctx: &mut Initialize,
    max_withdraw: Option<u64>,
    vault_bump: u8,
    vault_authority_bump: u8,
    rent_exempt_lamports: u64,
) -> (r: Result<Transfer, ErrorCode>)
    requires
        old(ctx).wf(),
    ensures
        match r {
            Ok(t) => initialize_outcome(
                *old(ctx),
                vault_bump,
                vault_authority_bump,
                max_withdraw,
                rent_exempt_lamports,
            ) == Ok::<(Initialize, Transfer), ErrorCode>((*final(ctx), t)),
            Err(e) => initialize_outcome(
                *old(ctx),
                vault_bump,
                vault_authority_bump,
                max_withdraw,
                rent_exempt_lamports,
            ) == Err::<(Initialize, Transfer), ErrorCode>(e) && *final(ctx) == *old(ctx),
        },
{
    deposit_handler(ctx, vault_bump, vault_authority_bump, max_withdraw, rent_exempt_lamports)
}

/// The program's `deposit` instruction.
pub fn deposit(ctx: &mut Deposit, lamports_to_transfer: u64, rent_exempt_lamports: u64) -> (r:
    Result<Transfer, ErrorCode>)
    requires
        old(ctx).wf(),
    ensures
        match r {
            Ok(t) => deposit_outcome(*old(ctx), lamports_to_transfer, rent_exempt_lamports) == Ok::<
                (Deposit, Transfer),
                ErrorCode,
            >((*final(ctx), t)),
            Err(e) => deposit_outcome(*old(ctx), lamports_to_transfer, rent_exempt_lamports)
                == Err::<(Deposit, Transfer), ErrorCode>(e) && *final(ctx) == *old(ctx),
        },
{
    handler(ctx, lamports_to_transfer, rent_exempt_lamports)
}

/// The program's `withdraw` instruction.
pub fn withdraw(ctx: &mut Withdraw, amount_to_withdraw: u64) -> (r: Result<Transfer, ErrorCode>)
    requires
        old(ctx).wf(),
    ensures
        match r {
            Ok(t) => withdraw_outcome(*old(ctx), amount_to_withdraw) == Ok::<
                (Withdraw, Transfer),
                ErrorCode,
            >((*final(ctx), t)),
            Err(e) => withdraw_outcome(*old(ctx), amount_to_withdraw) == Err::<
                (Withdraw, Transfer),
                ErrorCode,
            >(e) && *final(ctx) == *old(ctx),
        },
{
    withdraw_handler(ctx, amount_to_withdraw)
}

/// The program's `close` instruction.
pub fn close(ctx: &mut Close) -> (r: Result<Transfer, ErrorCode>)
    requires
        old(ctx).wf(),
    ensures
        match r {
            Ok(t) => close_outcome(*old(ctx)) == Ok::<(Close, Transfer), ErrorCode>(
                (*final(ctx), t),
            ),
            Err(e) => close_outcome(*old(ctx)) == Err::<(Close, Transfer), ErrorCode>(e)
                && *final(ctx) == *old(ctx),
        },
{
    close_handler(ctx)
}

} // verus!

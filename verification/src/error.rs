use vstd::prelude::*;

verus! {

/// Why an instruction of the vault was refused.
#[derive(Clone, Copy, Debug, PartialEq, Eq, Structural)]
pub enum ErrorCode {
    /// The recorded deposits would overflow a `u64`.
    InvalidTransferOverflow,
    /// The owner would be left below the rent-exempt minimum.
    InvalidTransferNotRentExempt,
    /// The owner holds fewer lamports than the deposit.
    InsufficientFunds,
    /// A withdrawal of zero lamports.
    InvalidWithdrawAmount,
    /// The vault holds fewer lamports than the withdrawal.
    InsufficientFundsVault,
    /// A withdrawal of the vault's whole balance, which would leave it without
    /// lamports.
    InvalidWithdrawDrainedVault,
    /// A withdrawal above the state's `max_withdraw`.
    InvalidMaxWithdrawExcceded,
}

} // verus!

use vstd::prelude::*;

verus! {

/// Seed of the vault account, the program address that holds the lamports:
/// the ASCII bytes of `vault`.
pub const VAULT_SEED: [u8; 5] = [0x76, 0x61, 0x75, 0x6c, 0x74];

/// Seed of the account that records the vault's state: the ASCII bytes of
/// `vault_state`.
pub const VAULT_STATE_SEED: [u8; 11] = [0x76, 0x61, 0x75, 0x6c, 0x74, 0x5f, 0x73, 0x74, 0x61, 0x74, 0x65];

/// Bytes that the account framework places before an account's data.
pub const ANCHOR_DISCRIMINATOR_SIZE: usize = 8;

} // verus!

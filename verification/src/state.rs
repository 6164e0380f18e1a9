use vstd::prelude::*;

use crate::constants::VAULT_SEED;

verus! {

/// What the vault's state account records.
#[derive(Clone, Copy, Debug)]
pub struct VaultState {
    /// The key of the owner, the only signer that may use the vault.
    pub owner: [u8; 32],
    /// The lamports recorded as deposited: the rent-exempt minimum paid in at
    /// initialization plus every deposit since; withdrawals do not lower it.
    pub current_deposited_lamports: u64,
    /// Bump of the vault's program address.
    pub vault_bump: u8,
    /// Bump of the state account's program address.
    pub bump: u8,
    /// The largest amount that one withdrawal may take, if any.
    pub max_withdraw: Option<u64>,
}

/// The accounts that the vault's instructions read and change: the owner's
/// lamports, the vault's lamports and the state account.
#[derive(Clone, Copy, Debug)]
pub struct VaultAccounts {
    /// The key of the signer of the instruction.
    pub owner: [u8; 32],
    pub owner_lamports: u64,
    pub vault_lamports: u64,
    /// The record that the state account holds while it is open.
    pub vault_authority: VaultState,
    /// The lamports of the state account.
    pub vault_authority_lamports: u64,
    /// Whether the state account exists and holds a record; once closed it
    /// holds neither lamports nor data, and its record above is not read.
    pub vault_authority_open: bool,
}

/// The two accounts between which lamports move.
#[derive(Clone, Copy, Debug, PartialEq, Eq, Structural)]
pub enum Party {
    Owner,
    Vault,
}

/// Signature of the vault's program address, derived from the owner's key
/// and the vault's bump.
#[derive(Clone, Copy, Debug)]
pub struct VaultSigner {
    pub owner: [u8; 32],
    pub vault_bump: u8,
}

/// A transfer through the system program that an instruction asks for.
#[derive(Clone, Copy, Debug)]
pub struct Transfer {
    pub from: Party,
    pub to: Party,
    pub lamports: u64,
    /// Present when the transfer is signed with the vault's seeds.
    pub signer: Option<VaultSigner>,
}

impl VaultAccounts {
    /// The lamports of the three accounts fit together in a `u64`, as all
    /// lamports in existence do.
    pub open spec fn wf(self) -> bool {
        self.owner_lamports + self.vault_lamports + self.vault_authority_lamports <= u64::MAX
    }

    /// The lamports that the owner, the vault and the state account hold
    /// together.
    pub open spec fn total_lamports(self) -> int {
        self.owner_lamports + self.vault_lamports + self.vault_authority_lamports
    }

    /// The balance of one party.
    pub open spec fn balance(self, p: Party) -> int {
        match p {
            Party::Owner => self.owner_lamports as int,
            Party::Vault => self.vault_lamports as int,
        }
    }

    /// The accounts after `t` moved its lamports from one party to the other.
    pub open spec fn apply_transfer(self, t: Transfer) -> VaultAccounts {
        if t.from == t.to {
            self
        } else {
            match t.from {
                Party::Owner => VaultAccounts {
                    owner_lamports: (self.owner_lamports - t.lamports) as u64,
                    vault_lamports: (self.vault_lamports + t.lamports) as u64,
                    ..self
                },
                Party::Vault => VaultAccounts {
                    owner_lamports: (self.owner_lamports + t.lamports) as u64,
                    vault_lamports: (self.vault_lamports - t.lamports) as u64,
                    ..self
                },
            }
        }
    }
}

impl VaultAccounts {
    /// Moves the lamports of `t` from one party to the other.
    pub fn apply(&mut self, t: &Transfer)
        requires
            t.from != t.to,
            t.lamports <= old(self).balance(t.from),
            old(self).balance(t.to) + t.lamports <= u64::MAX,
        ensures
            *final(self) == old(self).apply_transfer(*t),
    {
        match t.from {
            Party::Owner => {
                self.owner_lamports = self.owner_lamports - t.lamports;
                self.vault_lamports = self.vault_lamports + t.lamports;
            },
            Party::Vault => {
                self.vault_lamports = self.vault_lamports - t.lamports;
                self.owner_lamports = self.owner_lamports + t.lamports;
            },
        }
    }
}

impl VaultSigner {
    /// The seeds of the vault's program address: the vault seed, the owner's
    /// key and the bump.
    pub open spec fn spec_seeds(self) -> Seq<Seq<u8>> {
        seq![VAULT_SEED@, self.owner@, seq![self.vault_bump]]
    }

    /// The seeds with which the program signs for the vault.
    pub fn seeds(&self) -> (r: Vec<Vec<u8>>)
        ensures
            r@.len() == 3,
            forall|i: int| 0 <= i < 3 ==> #[trigger] r@[i]@ == self.spec_seeds()[i],
    {
        let mut r: Vec<Vec<u8>> = Vec::new();
        r.push(vstd::slice::slice_to_vec(VAULT_SEED.as_slice()));
        r.push(vstd::slice::slice_to_vec(self.owner.as_slice()));
        let mut bump: Vec<u8> = Vec::new();
        bump.push(self.vault_bump);
        r.push(bump);
        assert(r@[2]@ =~= seq![self.vault_bump]);
        r
    }
}

} // verus!

//! The two vault instructions, deposit and withdraw, as a verified state
//! machine over the signer's and the vault's account records.
//!
//! Per signer the vault cycles between two states: empty, and funded with a
//! single deposit. A deposit must exceed the host's rent-exempt minimum and
//! finds the vault empty; a withdrawal sweeps the entire balance back to the
//! signer, authorized by the recomputed derivation proof.

use vstd::prelude::*;

use crate::account::{Account, Address};
use crate::derivation::{vault_label, vault_matches, verify_vault_address};
use crate::transfer::{transfer, Authorization, TransferError};

verus! {

/// The accounts every vault instruction names: the signing depositor and the
/// vault derived from its address.
pub struct VaultAction {
    pub signer: Account,
    pub vault: Account,
}

impl VaultAction {
    /// Both account records carry well-formed addresses.
    pub open spec fn wf(self) -> bool {
        self.signer.wf() && self.vault.wf()
    }
}

/// The state an instruction reads and writes: both addresses and both
/// balances, as plain mathematical values.
#[verifier::ext_equal]
pub ghost struct ActionView {
    pub signer_addr: Seq<u8>,
    pub signer_bal: u64,
    pub vault_addr: Seq<u8>,
    pub vault_bal: u64,
}

impl View for VaultAction {
    type V = ActionView;

    open spec fn view(&self) -> ActionView {
        ActionView {
            signer_addr: self.signer.address@,
            signer_bal: self.signer.balance,
            vault_addr: self.vault.address@,
            vault_bal: self.vault.balance,
        }
    }
}

/// The program's own error kinds.
#[derive(Clone, Copy, PartialEq, Eq, Structural, Debug)]
pub enum VaultError {
    /// A deposit found the vault already funded.
    VaultAlreadyExists,
    /// A deposit at or below the rent-exempt minimum, or a withdrawal from
    /// an empty vault.
    InvalidAmount,
}

/// Everything that can abort a vault instruction. Every abort leaves both
/// account records exactly as they were.
#[derive(Clone, Copy, PartialEq, Eq, Structural, Debug)]
pub enum InstructionError {
    /// One of the program's own precondition checks failed.
    Vault(VaultError),
    /// The caller-supplied vault account is not the one derived for the
    /// signer under this program.
    AddressMismatch,
    /// The underlying transfer primitive refused the move.
    Transfer(TransferError),
}

/// What a deposit of `amount` does to the state `s`, given the host's
/// rent-exempt minimum: the new state, and the instruction's result.
pub open spec fn deposit_outcome(
    s: ActionView,
    program: Seq<u8>,
    amount: u64,
    rent_min: u64,
) -> (ActionView, Result<(), InstructionError>) {
    if !vault_matches(s.signer_addr, s.vault_addr, program) {
        (s, Err(InstructionError::AddressMismatch))
    } else if s.vault_bal != 0 {
        (s, Err(InstructionError::Vault(VaultError::VaultAlreadyExists)))
    } else if amount <= rent_min {
        (s, Err(InstructionError::Vault(VaultError::InvalidAmount)))
    } else if s.signer_bal < amount {
        (s, Err(InstructionError::Transfer(TransferError::InsufficientFunds)))
    } else {
        (
            ActionView { signer_bal: (s.signer_bal - amount) as u64, vault_bal: amount, ..s },
            Ok(()),
        )
    }
}

/// What a withdrawal does to the state `s`: the new state, and the
/// instruction's result. A successful withdrawal always sweeps the entire
/// vault balance.
pub open spec fn withdraw_outcome(s: ActionView, program: Seq<u8>) -> (
    ActionView,
    Result<(), InstructionError>,
) {
    if !vault_matches(s.signer_addr, s.vault_addr, program) {
        (s, Err(InstructionError::AddressMismatch))
    } else if s.vault_bal == 0 {
        (s, Err(InstructionError::Vault(VaultError::InvalidAmount)))
    } else if s.signer_bal + s.vault_bal > u64::MAX {
        (s, Err(InstructionError::Transfer(TransferError::BalanceOverflow)))
    } else {
        (
            ActionView { signer_bal: (s.signer_bal + s.vault_bal) as u64, vault_bal: 0u64, ..s },
            Ok(()),
        )
    }
}

/// Deposit instruction.
///
/// Rejects, in this order: a vault address that is not the derivation for
/// the signer; a vault that already holds a balance; an amount at or below
/// the rent-exempt minimum; a signer balance below the amount. Otherwise it
/// moves exactly `amount` from the signer to the vault, authorized by the
/// signer's own signature.
pub fn deposit(action: &mut VaultAction, program: &Address, amount: u64, rent_min: u64) -> (r:
    Result<(), InstructionError>)
    requires
        old(action).wf(),
        program.wf(),
    ensures
        final(action).wf(),
        (final(action)@, r) == deposit_outcome(old(action)@, program@, amount, rent_min),
{
    if verify_vault_address(&action.signer.address, &action.vault.address, program).is_none() {
        return Err(InstructionError::AddressMismatch);
    }
    if action.vault.balance != 0 {
        return Err(InstructionError::Vault(VaultError::VaultAlreadyExists));
    }
    if amount <= rent_min {
        return Err(InstructionError::Vault(VaultError::InvalidAmount));
    }
    let auth = Authorization::Signature { holder: action.signer.address.duplicate() };
    match transfer(&mut action.signer, &mut action.vault, amount, &auth) {
        Ok(()) => Ok(()),
        Err(e) => Err(InstructionError::Transfer(e)),
    }
}

/// Withdraw instruction.
///
/// Rejects a vault address that is not the derivation for the signer, then
/// an empty vault. Otherwise it reconstructs the derivation proof from the
/// label, the signer's address and the recomputed bump, and moves the entire
/// vault balance back to the signer under that proof.
pub fn withdraw(action: &mut VaultAction, program: &Address) -> (r: Result<(), InstructionError>)
    requires
        old(action).wf(),
        program.wf(),
    ensures
        final(action).wf(),
        (final(action)@, r) == withdraw_outcome(old(action)@, program@),
{
    let bump = match verify_vault_address(&action.signer.address, &action.vault.address, program) {
        Some(b) => b,
        None => {
            return Err(InstructionError::AddressMismatch);
        },
    };
    let vault_balance = action.vault.balance;
    if vault_balance == 0 {
        return Err(InstructionError::Vault(VaultError::InvalidAmount));
    }
    let auth = Authorization::DerivationProof {
        label: vault_label(),
        seed: action.signer.address.duplicate().bytes,
        bump,
        program: program.duplicate(),
    };
    match transfer(&mut action.vault, &mut action.signer, vault_balance, &auth) {
        Ok(()) => Ok(()),
        Err(e) => Err(InstructionError::Transfer(e)),
    }
}

} // verus!

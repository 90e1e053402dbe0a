//! The guarantees of the vault state machine, stated and proved over the
//! instruction outcomes that `deposit` and `withdraw` are verified to
//! implement.

use vstd::prelude::*;

use crate::derivation::vault_matches;
use crate::instructions::{
    deposit_outcome, withdraw_outcome, ActionView, InstructionError, VaultError,
};

verus! {

/// A deposit above the rent-exempt minimum into an empty, correctly derived
/// vault succeeds: the vault ends up holding exactly the amount, and the
/// signer's balance decreases by exactly the amount.
pub proof fn lemma_deposit_funds_empty_vault(
    s: ActionView,
    program: Seq<u8>,
    amount: u64,
    rent_min: u64,
)
    requires
        vault_matches(s.signer_addr, s.vault_addr, program),
        s.vault_bal == 0,
        amount > rent_min,
        s.signer_bal >= amount,
    ensures
        ({
            let (t, r) = deposit_outcome(s, program, amount, rent_min);
            r == Ok::<(), InstructionError>(()) && t.vault_bal == amount && t.signer_bal
                == s.signer_bal - amount && t.signer_addr == s.signer_addr && t.vault_addr
                == s.vault_addr
        }),
{
}

/// A deposit into a correctly derived vault that already holds a balance
/// always fails with `VaultAlreadyExists` and changes nothing, whatever the
/// amount.
pub proof fn lemma_deposit_rejects_funded_vault(
    s: ActionView,
    program: Seq<u8>,
    amount: u64,
    rent_min: u64,
)
    requires
        vault_matches(s.signer_addr, s.vault_addr, program),
        s.vault_bal != 0,
    ensures
        deposit_outcome(s, program, amount, rent_min) == (
            s,
            Err::<(), InstructionError>(InstructionError::Vault(VaultError::VaultAlreadyExists)),
        ),
{
}

/// A deposit at or below the rent-exempt minimum into an empty, correctly
/// derived vault always fails with `InvalidAmount` and changes nothing.
pub proof fn lemma_deposit_rejects_small_amount(
    s: ActionView,
    program: Seq<u8>,
    amount: u64,
    rent_min: u64,
)
    requires
        vault_matches(s.signer_addr, s.vault_addr, program),
        s.vault_bal == 0,
        amount <= rent_min,
    ensures
        deposit_outcome(s, program, amount, rent_min) == (
            s,
            Err::<(), InstructionError>(InstructionError::Vault(VaultError::InvalidAmount)),
        ),
{
}

/// A withdrawal from an empty, correctly derived vault always fails with
/// `InvalidAmount` and changes nothing.
pub proof fn lemma_withdraw_rejects_empty_vault(s: ActionView, program: Seq<u8>)
    requires
        vault_matches(s.signer_addr, s.vault_addr, program),
        s.vault_bal == 0,
    ensures
        withdraw_outcome(s, program) == (
            s,
            Err::<(), InstructionError>(InstructionError::Vault(VaultError::InvalidAmount)),
        ),
{
}

/// A withdrawal from a funded, correctly derived vault succeeds: the vault
/// is emptied and the signer gains exactly the vault's former balance.
pub proof fn lemma_withdraw_sweeps_balance(s: ActionView, program: Seq<u8>)
    requires
        vault_matches(s.signer_addr, s.vault_addr, program),
        s.vault_bal != 0,
        s.signer_bal + s.vault_bal <= u64::MAX,
    ensures
        ({
            let (t, r) = withdraw_outcome(s, program);
            r == Ok::<(), InstructionError>(()) && t.vault_bal == 0 && t.signer_bal == s.signer_bal
                + s.vault_bal && t.signer_addr == s.signer_addr && t.vault_addr == s.vault_addr
        }),
{
}

/// A vault address that fails the derivation check for the signer aborts
/// either instruction before any balance is read: both fail with the
/// address-mismatch abort and move no funds.
pub proof fn lemma_mismatched_vault_moves_nothing(
    s: ActionView,
    program: Seq<u8>,
    amount: u64,
    rent_min: u64,
)
    requires
        !vault_matches(s.signer_addr, s.vault_addr, program),
    ensures
        deposit_outcome(s, program, amount, rent_min) == (
            s,
            Err::<(), InstructionError>(InstructionError::AddressMismatch),
        ),
        withdraw_outcome(s, program) == (
            s,
            Err::<(), InstructionError>(InstructionError::AddressMismatch),
        ),
{
}

/// Round trip: from an empty, correctly derived vault, a deposit, a full
/// withdrawal and a second deposit of the same amount succeed in turn; the
/// withdrawal restores the starting state exactly, and the second deposit
/// reproduces the state after the first. The cycle leaves no residue.
pub proof fn lemma_round_trip(s: ActionView, program: Seq<u8>, amount: u64, rent_min: u64)
    requires
        vault_matches(s.signer_addr, s.vault_addr, program),
        s.vault_bal == 0,
        amount > rent_min,
        s.signer_bal >= amount,
    ensures
        ({
            let (s1, r1) = deposit_outcome(s, program, amount, rent_min);
            let (s2, r2) = withdraw_outcome(s1, program);
            let (s3, r3) = deposit_outcome(s2, program, amount, rent_min);
            r1 == Ok::<(), InstructionError>(()) && r2 == Ok::<(), InstructionError>(()) && r3
                == Ok::<(), InstructionError>(()) && s2 == s && s3 == s1
        }),
{
    let (s1, r1) = deposit_outcome(s, program, amount, rent_min);
    let (s2, r2) = withdraw_outcome(s1, program);
    let (s3, r3) = deposit_outcome(s2, program, amount, rent_min);
    assert(s2 =~= s);
    assert(s3 =~= s1);
}

} // verus!

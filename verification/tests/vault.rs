use anchor_lang::prelude::Pubkey;
use anchor_vault::account::{address_eq, Account, Address};
use anchor_vault::instructions::{deposit, withdraw, InstructionError, VaultAction, VaultError};
use anchor_vault::transfer::{transfer, Authorization, TransferError};

const RENT_MIN: u64 = 890_880;

fn addr(bytes: [u8; 32]) -> Address {
    Address { bytes: bytes.to_vec() }
}

fn program_id() -> Address {
    let pid = Pubkey::try_from("22222222222222222222222222222222222222222222").unwrap();
    Address { bytes: pid.to_bytes().to_vec() }
}

/// The vault address for a signer, computed independently of the library
/// through the host's own derivation function.
fn vault_address_for(signer: &Address, program: &Address) -> Address {
    let pid = Pubkey::try_from(program.bytes.as_slice()).unwrap();
    let s = Pubkey::try_from(signer.bytes.as_slice()).unwrap();
    let (pda, _bump) = Pubkey::find_program_address(&[b"vault", s.as_ref()], &pid);
    Address { bytes: pda.to_bytes().to_vec() }
}

fn action_for(signer_bytes: [u8; 32], signer_bal: u64, vault_bal: u64) -> VaultAction {
    let signer_addr = addr(signer_bytes);
    let vault_addr = vault_address_for(&signer_addr, &program_id());
    VaultAction {
        signer: Account { address: signer_addr, balance: signer_bal },
        vault: Account { address: vault_addr, balance: vault_bal },
    }
}

#[test]
fn deposit_funds_empty_vault() {
    let program = program_id();
    let mut action = action_for([7u8; 32], 2_000_000, 0);
    let r = deposit(&mut action, &program, 1_000_000, RENT_MIN);
    assert_eq!(r, Ok(()));
    assert_eq!(action.vault.balance, 1_000_000);
    assert_eq!(action.signer.balance, 1_000_000);
}

#[test]
fn deposit_rejects_funded_vault() {
    let program = program_id();
    let mut action = action_for([8u8; 32], 5_000_000, 42);
    let r = deposit(&mut action, &program, 1_000_000, RENT_MIN);
    assert_eq!(r, Err(InstructionError::Vault(VaultError::VaultAlreadyExists)));
    assert_eq!(action.signer.balance, 5_000_000);
    assert_eq!(action.vault.balance, 42);
}

#[test]
fn deposit_rejects_amount_at_rent_minimum() {
    let program = program_id();
    let mut action = action_for([9u8; 32], 5_000_000, 0);
    let r = deposit(&mut action, &program, RENT_MIN, RENT_MIN);
    assert_eq!(r, Err(InstructionError::Vault(VaultError::InvalidAmount)));
    assert_eq!(action.signer.balance, 5_000_000);
    assert_eq!(action.vault.balance, 0);
}

#[test]
fn deposit_rejects_amount_below_rent_minimum() {
    let program = program_id();
    let mut action = action_for([10u8; 32], 5_000_000, 0);
    let r = deposit(&mut action, &program, 500_000, RENT_MIN);
    assert_eq!(r, Err(InstructionError::Vault(VaultError::InvalidAmount)));
    assert_eq!(action.signer.balance, 5_000_000);
    assert_eq!(action.vault.balance, 0);
}

#[test]
fn deposit_rejects_poor_signer() {
    let program = program_id();
    let mut action = action_for([11u8; 32], 900_000, 0);
    let r = deposit(&mut action, &program, 1_000_000, RENT_MIN);
    assert_eq!(r, Err(InstructionError::Transfer(TransferError::InsufficientFunds)));
    assert_eq!(action.signer.balance, 900_000);
    assert_eq!(action.vault.balance, 0);
}

#[test]
fn withdraw_rejects_empty_vault() {
    let program = program_id();
    let mut action = action_for([12u8; 32], 3_000_000, 0);
    let r = withdraw(&mut action, &program);
    assert_eq!(r, Err(InstructionError::Vault(VaultError::InvalidAmount)));
    assert_eq!(action.signer.balance, 3_000_000);
    assert_eq!(action.vault.balance, 0);
}

#[test]
fn withdraw_sweeps_balance() {
    let program = program_id();
    let mut action = action_for([13u8; 32], 10, 750_000);
    let r = withdraw(&mut action, &program);
    assert_eq!(r, Ok(()));
    assert_eq!(action.signer.balance, 750_010);
    assert_eq!(action.vault.balance, 0);
}

#[test]
fn withdraw_rejects_overflowing_sweep() {
    let program = program_id();
    let mut action = action_for([14u8; 32], u64::MAX, 900_000);
    let r = withdraw(&mut action, &program);
    assert_eq!(r, Err(InstructionError::Transfer(TransferError::BalanceOverflow)));
    assert_eq!(action.signer.balance, u64::MAX);
    assert_eq!(action.vault.balance, 900_000);
}

#[test]
fn mismatched_vault_rejected() {
    let program = program_id();
    let signer = addr([15u8; 32]);
    let other = addr([16u8; 32]);
    // A vault derived for a different signer.
    let foreign_vault = vault_address_for(&other, &program);
    let mut action = VaultAction {
        signer: Account { address: signer, balance: 5_000_000 },
        vault: Account { address: foreign_vault, balance: 1_000_000 },
    };
    let r = withdraw(&mut action, &program);
    assert_eq!(r, Err(InstructionError::AddressMismatch));
    assert_eq!(action.signer.balance, 5_000_000);
    assert_eq!(action.vault.balance, 1_000_000);

    let r = deposit(&mut action, &program, 2_000_000, RENT_MIN);
    assert_eq!(r, Err(InstructionError::AddressMismatch));
    assert_eq!(action.signer.balance, 5_000_000);
    assert_eq!(action.vault.balance, 1_000_000);
}

#[test]
fn round_trip_is_repeatable() {
    let program = program_id();
    let mut action = action_for([17u8; 32], 4_000_000, 0);
    for _ in 0..3 {
        assert_eq!(deposit(&mut action, &program, 1_500_000, RENT_MIN), Ok(()));
        assert_eq!(action.vault.balance, 1_500_000);
        assert_eq!(action.signer.balance, 2_500_000);
        assert_eq!(withdraw(&mut action, &program), Ok(()));
        assert_eq!(action.vault.balance, 0);
        assert_eq!(action.signer.balance, 4_000_000);
    }
}

#[test]
fn full_scenario() {
    let program = program_id();
    let mut action = action_for([18u8; 32], 10_000_000, 0);

    assert_eq!(deposit(&mut action, &program, 1_000_000, RENT_MIN), Ok(()));
    assert_eq!(action.vault.balance, 1_000_000);

    assert_eq!(
        deposit(&mut action, &program, 1_000_000, RENT_MIN),
        Err(InstructionError::Vault(VaultError::VaultAlreadyExists))
    );
    assert_eq!(action.vault.balance, 1_000_000);

    let before = action.signer.balance;
    assert_eq!(withdraw(&mut action, &program), Ok(()));
    assert_eq!(action.vault.balance, 0);
    assert_eq!(action.signer.balance, before + 1_000_000);

    assert_eq!(
        withdraw(&mut action, &program),
        Err(InstructionError::Vault(VaultError::InvalidAmount))
    );

    assert_eq!(
        deposit(&mut action, &program, 500_000, RENT_MIN),
        Err(InstructionError::Vault(VaultError::InvalidAmount))
    );
    assert_eq!(action.vault.balance, 0);
}

#[test]
fn transfer_requires_matching_signature() {
    let mut from = Account { address: addr([19u8; 32]), balance: 1_000 };
    let mut to = Account { address: addr([20u8; 32]), balance: 0 };
    // A signature by someone other than the debited account.
    let auth = Authorization::Signature { holder: addr([21u8; 32]) };
    let r = transfer(&mut from, &mut to, 500, &auth);
    assert_eq!(r, Err(TransferError::MissingAuthorization));
    assert_eq!(from.balance, 1_000);
    assert_eq!(to.balance, 0);

    let auth = Authorization::Signature { holder: addr([19u8; 32]) };
    let r = transfer(&mut from, &mut to, 500, &auth);
    assert_eq!(r, Ok(()));
    assert_eq!(from.balance, 500);
    assert_eq!(to.balance, 500);
}

#[test]
fn transfer_rejects_forged_derivation_proof() {
    let program = program_id();
    let signer = addr([22u8; 32]);
    let vault = vault_address_for(&signer, &program);
    let mut from = Account { address: vault, balance: 1_000 };
    let mut to = Account { address: signer, balance: 0 };
    // A proof whose seed names a different signer cannot debit this vault.
    let auth = Authorization::DerivationProof {
        label: b"vault".to_vec(),
        seed: [23u8; 32].to_vec(),
        bump: 255,
        program: program_id(),
    };
    let r = transfer(&mut from, &mut to, 1_000, &auth);
    assert_eq!(r, Err(TransferError::MissingAuthorization));
    assert_eq!(from.balance, 1_000);
    assert_eq!(to.balance, 0);
}

#[test]
fn address_eq_compares_bytes() {
    let a = addr([1u8; 32]);
    let b = addr([1u8; 32]);
    let c = addr([2u8; 32]);
    assert!(address_eq(&a, &b));
    assert!(!address_eq(&a, &c));
    let d = a.duplicate();
    assert!(address_eq(&a, &d));
}

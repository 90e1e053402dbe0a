//! The transfer primitive: an atomic, all-or-nothing move of native currency
//! between two account records, authorized either by the sending account's
//! own signature or by a derivation proof presented on its behalf.

use vstd::prelude::*;

use crate::account::{address_eq, Account, Address};
use crate::derivation::{create_address_raw, derived_address};

verus! {

/// What authorizes an outgoing transfer from an account.
pub enum Authorization {
    /// The host verified the holder's signature over the enclosing
    /// transaction; the holder may debit its own account.
    Signature { holder: Address },
    /// A derivation proof: the label, seed and bump whose derivation under
    /// `program` must yield the debited account's address.
    DerivationProof { label: Vec<u8>, seed: Vec<u8>, bump: u8, program: Address },
}

impl Authorization {
    /// Seed lengths the derivation rule accepts, and well-formed addresses.
    pub open spec fn wf(self) -> bool {
        match self {
            Authorization::Signature { holder } => holder.wf(),
            Authorization::DerivationProof { label, seed, bump, program } => label@.len() <= 32
                && seed@.len() <= 32 && program.wf(),
        }
    }
}

/// Whether `auth` entitles its presenter to debit the account at `from`.
pub open spec fn authorizes(auth: Authorization, from: Seq<u8>) -> bool {
    match auth {
        Authorization::Signature { holder } => holder@ == from,
        Authorization::DerivationProof { label, seed, bump, program } => derived_address(
            label@,
            seed@,
            bump,
            program@,
        ) == Some(from),
    }
}

/// Why a transfer failed. Any failure leaves both balances untouched.
#[derive(Clone, Copy, PartialEq, Eq, Structural, Debug)]
pub enum TransferError {
    /// The presented authorization does not cover the debited account.
    MissingAuthorization,
    /// The debited account holds less than the requested amount.
    InsufficientFunds,
    /// The credited account cannot hold the resulting balance.
    BalanceOverflow,
}

/// Move `amount` from `from` to `to`, atomically: either both balances
/// change by exactly `amount`, or neither changes and the error says why.
pub fn transfer(from: &mut Account, to: &mut Account, amount: u64, auth: &Authorization) -> (r:
    Result<(), TransferError>)
    requires
        old(from).wf(),
        old(to).wf(),
        auth.wf(),
    ensures
        final(from).address == old(from).address,
        final(to).address == old(to).address,
        final(from).wf(),
        final(to).wf(),
        (r is Ok) <==> (authorizes(*auth, old(from).address@) && old(from).balance >= amount && old(
            to,
        ).balance + amount <= u64::MAX),
        r is Ok ==> final(from).balance == old(from).balance - amount && final(to).balance == old(
            to,
        ).balance + amount,
        r is Err ==> final(from).balance == old(from).balance && final(to).balance == old(
            to,
        ).balance,
        !authorizes(*auth, old(from).address@) ==> r == Err::<(), TransferError>(
            TransferError::MissingAuthorization,
        ),
        authorizes(*auth, old(from).address@) && old(from).balance < amount ==> r == Err::<
            (),
            TransferError,
        >(TransferError::InsufficientFunds),
        authorizes(*auth, old(from).address@) && old(from).balance >= amount && old(to).balance
            + amount > u64::MAX ==> r == Err::<(), TransferError>(TransferError::BalanceOverflow),
{
    let authorized = match auth {
        Authorization::Signature { holder } => address_eq(holder, &from.address),
        Authorization::DerivationProof { label, seed, bump, program } => {
            match create_address_raw(label, seed, *bump, program) {
                Some(derived) => address_eq(&derived, &from.address),
                None => false,
            }
        },
    };
    if !authorized {
        return Err(TransferError::MissingAuthorization);
    }
    if from.balance < amount {
        return Err(TransferError::InsufficientFunds);
    }
    if to.balance > u64::MAX - amount {
        return Err(TransferError::BalanceOverflow);
    }
    from.balance = from.balance - amount;
    to.balance = to.balance + amount;
    Ok(())
}

} // verus!

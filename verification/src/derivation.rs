//! Program-scoped address derivation.
//!
//! A vault's address is derived from the fixed label `"vault"`, the signer's
//! address and a disambiguation byte (the bump), scoped to the program's own
//! id. The derivation is a pure function of those inputs; recomputing it and
//! comparing is the program's sole ownership check.

use vstd::prelude::*;

use crate::account::{address_eq, Address};

verus! {

/// The address the host ledger's program-derived-address rule yields for one
/// label seed, one signer seed, one bump byte and one program id, when the
/// resulting hash falls outside the space of ordinary public keys; `None`
/// when it does not.
pub uninterp spec fn derived_address(
    label: Seq<u8>,
    seed: Seq<u8>,
    bump: u8,
    program: Seq<u8>,
) -> Option<Seq<u8>>;

/// The canonical derivation: the first address/bump pair, searching bump
/// values downward from 255, whose derived address falls outside the space
/// of ordinary public keys; `None` when no bump value works.
pub uninterp spec fn canonical_pda(
    label: Seq<u8>,
    seed: Seq<u8>,
    program: Seq<u8>,
) -> Option<(Seq<u8>, u8)>;

/// Relies on `Pubkey::create_program_address` (re-exported by
/// `anchor_lang::prelude`): hashes the seeds, the program id and a fixed
/// domain marker; the result depends on those inputs alone, and the call
/// fails exactly when the hash is representable as an ordinary public key.
#[verifier::external_body]
pub(crate) fn create_address_raw(label: &Vec<u8>, seed: &Vec<u8>, bump: u8, program: &Address) -> (r: Option<
    Address,
>)
    requires
        label@.len() <= 32,
        seed@.len() <= 32,
        program.wf(),
    ensures
        match r {
            Some(a) => derived_address(label@, seed@, bump, program@) == Some(a@) && a.wf(),
            None => derived_address(label@, seed@, bump, program@) is None,
        },
{
    let pid = match anchor_lang::prelude::Pubkey::try_from(program.bytes.as_slice()) {
        Ok(p) => p,
        Err(_) => return None,
    };
    let bump_bytes = [bump];
    let seeds: &[&[u8]] = &[label.as_slice(), seed.as_slice(), &bump_bytes];
    match anchor_lang::prelude::Pubkey::create_program_address(seeds, &pid) {
        Ok(a) => Some(Address { bytes: a.to_bytes().to_vec() }),
        Err(_) => None,
    }
}

/// Relies on `Pubkey::try_find_program_address` (re-exported by
/// `anchor_lang::prelude`): tries bump values downward from 255 and returns
/// the first pair accepted by `Pubkey::create_program_address`; the result
/// depends on the seeds and the program id alone.
#[verifier::external_body]
fn find_address_raw(label: &Vec<u8>, seed: &Vec<u8>, program: &Address) -> (r: Option<
    (Address, u8),
>)
    requires
        label@.len() <= 32,
        seed@.len() <= 32,
        program.wf(),
    ensures
        match r {
            Some(p) => canonical_pda(label@, seed@, program@) == Some((p.0@, p.1))
                && derived_address(label@, seed@, p.1, program@) == Some(p.0@) && p.0.wf(),
            None => canonical_pda(label@, seed@, program@) is None,
        },
{
    let pid = match anchor_lang::prelude::Pubkey::try_from(program.bytes.as_slice()) {
        Ok(p) => p,
        Err(_) => return None,
    };
    let seeds: &[&[u8]] = &[label.as_slice(), seed.as_slice()];
    match anchor_lang::prelude::Pubkey::try_find_program_address(seeds, &pid) {
        Some((a, b)) => Some((Address { bytes: a.to_bytes().to_vec() }, b)),
        None => None,
    }
}

/// The label seed that scopes every vault derivation: the bytes of `"vault"`.
pub open spec fn vault_label_spec() -> Seq<u8> {
    seq![118u8, 97u8, 117u8, 108u8, 116u8]
}

/// The literal label `"vault"` as bytes.
pub fn vault_label() -> (r: Vec<u8>)
    ensures
        r@ == vault_label_spec(),
{
    let mut v: Vec<u8> = Vec::new();
    v.push(118);
    v.push(97);
    v.push(117);
    v.push(108);
    v.push(116);
    proof {
        assert(v@ =~= vault_label_spec());
    }
    v
}

/// The canonical vault derivation for one signer under one program.
pub open spec fn vault_derivation(signer: Seq<u8>, program: Seq<u8>) -> Option<(Seq<u8>, u8)> {
    canonical_pda(vault_label_spec(), signer, program)
}

/// Whether `vault` is the canonical vault address derived for `signer` under
/// `program`.
pub open spec fn vault_matches(signer: Seq<u8>, vault: Seq<u8>, program: Seq<u8>) -> bool {
    match vault_derivation(signer, program) {
        Some(p) => p.0 == vault,
        None => false,
    }
}

/// Recompute the vault derivation for `signer` and hold the caller-supplied
/// `vault` address against it. On a match, return the bump byte that proves
/// the derivation.
pub fn verify_vault_address(signer: &Address, vault: &Address, program: &Address) -> (r: Option<
    u8,
>)
    requires
        signer.wf(),
        vault.wf(),
        program.wf(),
    ensures
        match r {
            Some(b) => vault_derivation(signer@, program@) == Some((vault@, b))
                && derived_address(vault_label_spec(), signer@, b, program@) == Some(vault@)
                && vault_matches(signer@, vault@, program@),
            None => !vault_matches(signer@, vault@, program@),
        },
{
    let label = vault_label();
    match find_address_raw(&label, &signer.bytes, program) {
        Some((derived, bump)) => {
            if address_eq(&derived, vault) {
                Some(bump)
            } else {
                None
            }
        },
        None => None,
    }
}

} // verus!

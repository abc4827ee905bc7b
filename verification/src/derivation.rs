//! Program-derived addresses.
//!
//! The ledger runtime derives an address from a list of seeds and the address
//! of the program that is to own it. The derivation is a digest followed by a
//! search for a nonce, the bump, and is left to the runtime's own library.

use vstd::prelude::*;
use anchor_lang::prelude::Pubkey;
use crate::address::Address;

verus! {

/// What the runtime derives from `seeds` for the program `program_id`: the
/// address with its bump, or `None` where it finds no address.
pub uninterp spec fn program_address(seeds: Seq<Seq<u8>>, program_id: Seq<u8>) -> Option<(Seq<u8>, u8)>;

/// A derived address and its bump, as plain bytes.
pub open spec fn derived_view(derived: Option<(Address, u8)>) -> Option<(Seq<u8>, u8)> {
    match derived {
        Some((address, bump)) => Some((address@, bump)),
        None => None,
    }
}

/// Calls `Pubkey::try_find_program_address` with the two seeds `label` and
/// `owner`. Nothing is proved of it. The contract claims that the outcome is
/// the runtime's derivation for these seeds and this program, which depends
/// on nothing but them.
#[verifier::external_body]
fn try_find_program_address(label: &[u8], owner: &[u8; 32], program_id: &[u8; 32]) -> (found: Option<([u8; 32], u8)>)
    ensures
        match found {
            Some((key, bump)) => program_address(seq![label@, owner@], program_id@) == Some((key@, bump)),
            None => program_address(seq![label@, owner@], program_id@) is None,
        },
{
    let program = Pubkey::new_from_array(*program_id);
    match Pubkey::try_find_program_address(&[label, owner.as_slice()], &program) {
        Some((key, bump)) => Some((key.to_bytes(), bump)),
        None => None,
    }
}

/// Derives the address that the program `program_id` owns under the seeds
/// `label` and `owner`, with its bump. The label is handed in by the caller;
/// the derivation has no other input.
pub fn find_program_address(label: &[u8], owner: &Address, program_id: &Address) -> (derived: Option<
    (Address, u8),
>)
    ensures
        derived_view(derived) == program_address(seq![label@, owner@], program_id@),
{
    let owner = owner.to_bytes();
    let program = program_id.to_bytes();
    match try_find_program_address(label, &owner, &program) {
        Some((key, bump)) => Some((Address::new(key), bump)),
        None => None,
    }
}

} // verus!

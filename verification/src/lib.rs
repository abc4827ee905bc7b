//! Registration of omnichain applications with a messaging endpoint.
//!
//! An application registers once. Its record lives at an address that is
//! derived from a fixed seed label, the application's own address and the
//! address of the endpoint program, so that no index is needed to find it.

use vstd::prelude::*;

pub mod address;
pub mod derivation;
pub mod errors;
pub mod instructions;
pub mod laws;
pub mod state;

use crate::address::Address;
use crate::derivation::{derived_view, find_program_address, program_address};
use crate::errors::RegisterError;
use crate::instructions::{registers, RegisterOApp};
use crate::state::{Ledger, RegisterOAppParams};

verus! {

/// The seed label under which application records are derived.
pub const OAPP_SEED: [u8; 4] = [79, 65, 112, 112];

/// The bytes of the endpoint program's address.
pub open spec fn program_id() -> Seq<u8> {
    seq![
        131u8, 36, 35, 170, 168, 94, 187, 98, 103, 247, 184, 170, 136, 86, 134, 195,
        156, 94, 62, 139, 152, 250, 121, 217, 249, 14, 105, 144, 41, 203, 2, 210,
    ]
}

/// The address of the endpoint program.
pub fn id() -> (program: Address)
    ensures
        program@ == program_id(),
{
    let program = Address::new([
        131, 36, 35, 170, 168, 94, 187, 98, 103, 247, 184, 170, 136, 86, 134, 195,
        156, 94, 62, 139, 152, 250, 121, 217, 249, 14, 105, 144, 41, 203, 2, 210,
    ]);
    assert(program@ =~= program_id());
    program
}

/// The address at which the record of the application `caller` lives, with
/// its bump.
pub open spec fn oapp_address(caller: Seq<u8>) -> Option<(Seq<u8>, u8)> {
    program_address(seq![OAPP_SEED@, caller], program_id())
}

/// Derives the address of the record of the application `caller`.
pub fn find_oapp_address(caller: &Address) -> (derived: Option<(Address, u8)>)
    ensures
        derived_view(derived) == oapp_address(caller@),
{
    let program = id();
    find_program_address(&OAPP_SEED, caller, &program)
}

/// Registers the calling application with the endpoint.
///
/// The record is created at the address derived for the caller and holds
/// `params`. The request is refused, and nothing changes, where it names
/// another address, where an account exists at that address already, or
/// where the caller cannot pay the rent.
pub fn register_oapp(ledger: &mut Ledger, ctx: &mut RegisterOApp, params: RegisterOAppParams) -> (result: Result<
    (),
    RegisterError,
>)
    ensures
        registers(
            *old(ledger),
            *old(ctx),
            oapp_address(old(ctx).caller.key@),
            params,
            *final(ledger),
            *final(ctx),
            result,
        ),
{
    RegisterOApp::apply(ledger, ctx, &params)
}

} // verus!

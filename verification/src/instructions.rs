//! The registration instruction.

use vstd::prelude::*;
use crate::address::Address;
use crate::derivation::derived_view;
use crate::errors::RegisterError;
use crate::state::{Ledger, OAppAccount, RegisterOAppParams};
use crate::{find_oapp_address, oapp_address};

verus! {

/// The identity that asks for a registration, with the funds it can spend.
#[derive(Clone, Copy, Debug)]
pub struct Caller {
    pub key: Address,
    pub lamports: u64,
}

/// The accounts that a registration names.
#[derive(Clone, Copy, Debug)]
pub struct RegisterOApp {
    /// The application that registers. It pays for the record.
    pub caller: Caller,
    /// The address at which the caller wants the record created.
    pub oapp_account: Address,
}

/// Whether a registration goes ahead, and with which bump.
///
/// `derived` is the address derived for the caller, `supplied` the address
/// named in the request, `occupied` whether an account exists at `supplied`,
/// `funds` what the caller can spend and `rent` the price of the record. The
/// address is judged first, then the vacancy, then the funds.
pub open spec fn registration_outcome(
    derived: Option<(Seq<u8>, u8)>,
    supplied: Seq<u8>,
    occupied: bool,
    funds: u64,
    rent: u64,
) -> Result<u8, RegisterError> {
    match derived {
        Some((address, bump)) if address == supplied => {
            if occupied {
                Err(RegisterError::AlreadyRegistered)
            } else if funds < rent {
                Err(RegisterError::InsufficientFunds)
            } else {
                Ok(bump)
            }
        },
        _ => Err(RegisterError::AddressMismatch),
    }
}

/// Decides a registration from plain facts: the bump of the record to create,
/// or the reason for refusing.
pub fn check_registration(
    derived: Option<(Address, u8)>,
    supplied: &Address,
    occupied: bool,
    funds: u64,
    rent: u64,
) -> (outcome: Result<u8, RegisterError>)
    ensures
        outcome == registration_outcome(derived_view(derived), supplied@, occupied, funds, rent),
{
    match derived {
        Some((address, bump)) => {
            if !address.same_as(supplied) {
                Err(RegisterError::AddressMismatch)
            } else if occupied {
                Err(RegisterError::AlreadyRegistered)
            } else if funds < rent {
                Err(RegisterError::InsufficientFunds)
            } else {
                Ok(bump)
            }
        },
        None => Err(RegisterError::AddressMismatch),
    }
}

/// The world after a registration attempt.
pub struct Registration {
    /// The accounts of the ledger.
    pub accounts: Map<Seq<u8>, OAppAccount>,
    /// What the caller has left.
    pub lamports: u64,
    /// Whether the registration went ahead.
    pub result: Result<(), RegisterError>,
}

/// What a registration attempt does to the accounts of the ledger and to the
/// caller's funds. On success the record is created at the supplied address,
/// holding the payload, and the caller has paid its rent. A refusal leaves
/// both as they were.
pub open spec fn register_spec(
    accounts: Map<Seq<u8>, OAppAccount>,
    rent: u64,
    derived: Option<(Seq<u8>, u8)>,
    supplied: Seq<u8>,
    funds: u64,
    params: RegisterOAppParams,
) -> Registration {
    match registration_outcome(derived, supplied, accounts.dom().contains(supplied), funds, rent) {
        Ok(bump) => Registration {
            accounts: accounts.insert(supplied, OAppAccount { params, bump, lamports: rent }),
            lamports: (funds - rent) as u64,
            result: Ok(()),
        },
        Err(reason) => Registration { accounts, lamports: funds, result: Err(reason) },
    }
}

/// That a registration attempt with the derivation `derived` led from
/// `ledger` and `ctx` to `ledger_after` and `ctx_after` with `result`.
pub open spec fn registers(
    ledger: Ledger,
    ctx: RegisterOApp,
    derived: Option<(Seq<u8>, u8)>,
    params: RegisterOAppParams,
    ledger_after: Ledger,
    ctx_after: RegisterOApp,
    result: Result<(), RegisterError>,
) -> bool {
    let after = register_spec(
        ledger@,
        ledger.spec_rent(),
        derived,
        ctx.oapp_account@,
        ctx.caller.lamports,
        params,
    );
    &&& ledger_after@ == after.accounts
    &&& ledger_after.spec_rent() == ledger.spec_rent()
    &&& ctx_after.caller.lamports == after.lamports
    &&& ctx_after.caller.key == ctx.caller.key
    &&& ctx_after.oapp_account == ctx.oapp_account
    &&& result == after.result
}

impl RegisterOApp {
    /// Registers the caller: derives the address of its record, and creates
    /// the record there with `params` if the request names that address, the
    /// address is free and the caller can pay the rent.
    pub fn apply(ledger: &mut Ledger, ctx: &mut RegisterOApp, params: &RegisterOAppParams) -> (result: Result<
        (),
        RegisterError,
    >)
        ensures
            registers(
                *old(ledger),
                *old(ctx),
                oapp_address(old(ctx).caller.key@),
                *params,
                *final(ledger),
                *final(ctx),
                result,
            ),
    {
        let derived = find_oapp_address(&ctx.caller.key);
        RegisterOApp::apply_derived(ledger, ctx, derived, params)
    }

    /// Carries out a registration for which the caller's address has been
    /// derived already: `derived` is that address with its bump, `None`
    /// where there is none.
    pub fn apply_derived(
        ledger: &mut Ledger,
        ctx: &mut RegisterOApp,
        derived: Option<(Address, u8)>,
        params: &RegisterOAppParams,
    ) -> (result: Result<(), RegisterError>)
        ensures
            registers(
                *old(ledger),
                *old(ctx),
                derived_view(derived),
                *params,
                *final(ledger),
                *final(ctx),
                result,
            ),
    {
        let occupied = ledger.contains(&ctx.oapp_account);
        let rent = ledger.rent();
        match check_registration(derived, &ctx.oapp_account, occupied, ctx.caller.lamports, rent) {
            Ok(bump) => {
                ctx.caller.lamports = ctx.caller.lamports - rent;
                ledger.create(ctx.oapp_account, OAppAccount { params: *params, bump, lamports: rent });
                Ok(())
            },
            Err(reason) => Err(reason),
        }
    }
}

} // verus!

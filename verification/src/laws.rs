//! What holds of registrations, whatever the ledger, the caller and the
//! payload. Each statement is over `register_spec`, by which the contracts of
//! the registration functions are stated.

use vstd::prelude::*;
use crate::errors::RegisterError;
use crate::instructions::register_spec;
use crate::oapp_address;
use crate::state::{OAppAccount, RegisterOAppParams};

verus! {

/// A caller registers once. After a registration of `caller` has gone ahead,
/// every further attempt of the same caller is refused and changes nothing:
/// as a duplicate where it names the derived address again, as a mismatch
/// where it names another. The record of the first registration stays as it
/// was written.
pub proof fn lemma_second_registration_refused(
    accounts: Map<Seq<u8>, OAppAccount>,
    rent: u64,
    caller: Seq<u8>,
    supplied: Seq<u8>,
    funds: u64,
    params: RegisterOAppParams,
    supplied_again: Seq<u8>,
    funds_again: u64,
    params_again: RegisterOAppParams,
)
    requires
        register_spec(accounts, rent, oapp_address(caller), supplied, funds, params).result is Ok,
    ensures
        ({
            let first = register_spec(accounts, rent, oapp_address(caller), supplied, funds, params);
            let second = register_spec(
                first.accounts,
                rent,
                oapp_address(caller),
                supplied_again,
                funds_again,
                params_again,
            );
            &&& second.result == Err::<(), RegisterError>(
                if supplied_again == supplied {
                    RegisterError::AlreadyRegistered
                } else {
                    RegisterError::AddressMismatch
                },
            )
            &&& second.accounts == first.accounts
            &&& second.lamports == funds_again
            &&& second.accounts[supplied].params == params
        }),
{
}

/// A registration that goes ahead leaves, at the address derived for the
/// caller, a record that holds exactly the payload it was given, the bump of
/// the derivation and the rent, which the caller has paid.
pub proof fn lemma_registered_record_holds_params(
    accounts: Map<Seq<u8>, OAppAccount>,
    rent: u64,
    caller: Seq<u8>,
    supplied: Seq<u8>,
    funds: u64,
    params: RegisterOAppParams,
)
    requires
        register_spec(accounts, rent, oapp_address(caller), supplied, funds, params).result is Ok,
    ensures
        ({
            let after = register_spec(accounts, rent, oapp_address(caller), supplied, funds, params);
            &&& oapp_address(caller) matches Some((address, bump)) && address == supplied
                && after.accounts[supplied] == (OAppAccount { params, bump, lamports: rent })
            &&& !accounts.dom().contains(supplied)
            &&& after.accounts.dom().contains(supplied)
            &&& after.lamports + rent == funds
        }),
{
}

/// A request that names another address than the one derived for the caller
/// is refused as a mismatch and changes nothing, so that the attempt may be
/// made again: with the derived address it fares as if the refused attempt
/// had never been made, and goes ahead where the address is free and the
/// caller can pay.
pub proof fn lemma_mismatch_then_retry(
    accounts: Map<Seq<u8>, OAppAccount>,
    rent: u64,
    caller: Seq<u8>,
    wrong: Seq<u8>,
    funds: u64,
    params: RegisterOAppParams,
)
    requires
        !(oapp_address(caller) matches Some((address, _)) && address == wrong),
    ensures
        ({
            let refused = register_spec(accounts, rent, oapp_address(caller), wrong, funds, params);
            &&& refused.result == Err::<(), RegisterError>(RegisterError::AddressMismatch)
            &&& refused.accounts == accounts
            &&& refused.lamports == funds
            &&& oapp_address(caller) matches Some((address, bump)) ==> {
                let retried = register_spec(
                    refused.accounts,
                    rent,
                    oapp_address(caller),
                    address,
                    refused.lamports,
                    params,
                );
                &&& retried == register_spec(accounts, rent, oapp_address(caller), address, funds, params)
                &&& !accounts.dom().contains(address) && funds >= rent ==> retried.result is Ok
                    && retried.accounts[address].params == params
            }
        }),
{
}

/// No registration attempt removes or alters an account: every account that
/// existed before exists afterwards with the same content, and the only
/// address at which an account can have appeared is the supplied one.
pub proof fn lemma_registration_keeps_accounts(
    accounts: Map<Seq<u8>, OAppAccount>,
    rent: u64,
    caller: Seq<u8>,
    supplied: Seq<u8>,
    funds: u64,
    params: RegisterOAppParams,
)
    ensures
        ({
            let after = register_spec(accounts, rent, oapp_address(caller), supplied, funds, params);
            &&& forall|a: Seq<u8>| #[trigger]
                accounts.dom().contains(a) ==> after.accounts.dom().contains(a) && after.accounts[a]
                    == accounts[a]
            &&& forall|a: Seq<u8>| #[trigger]
                after.accounts.dom().contains(a) && !accounts.dom().contains(a) ==> a == supplied
        }),
{
}

/// Two callers whose records are derived at different addresses do not stand
/// in each other's way: where both addresses are free and both callers can
/// pay, the one registers, then the other, and each record holds its own
/// payload.
pub proof fn lemma_callers_at_different_addresses(
    accounts: Map<Seq<u8>, OAppAccount>,
    rent: u64,
    caller: Seq<u8>,
    funds: u64,
    params: RegisterOAppParams,
    other: Seq<u8>,
    other_funds: u64,
    other_params: RegisterOAppParams,
)
    requires
        oapp_address(caller) matches Some((at, _)) && oapp_address(other) matches Some((other_at, _))
            && at != other_at && !accounts.dom().contains(at) && !accounts.dom().contains(other_at),
        funds >= rent,
        other_funds >= rent,
    ensures
        oapp_address(caller) matches Some((at, _)) && oapp_address(other) matches Some((other_at, _))
            && {
            let first = register_spec(accounts, rent, oapp_address(caller), at, funds, params);
            let second = register_spec(
                first.accounts,
                rent,
                oapp_address(other),
                other_at,
                other_funds,
                other_params,
            );
            &&& first.result is Ok
            &&& second.result is Ok
            &&& second.accounts[at].params == params
            &&& second.accounts[other_at].params == other_params
        },
{
}

/// One registration request, as the ledger meets it.
pub struct Attempt {
    /// The application that asks.
    pub caller: Seq<u8>,
    /// The address that the request names.
    pub supplied: Seq<u8>,
    /// What the caller can spend at that moment.
    pub funds: u64,
    /// The payload.
    pub params: RegisterOAppParams,
}

/// The accounts of the ledger after `attempts` have been made in turn.
pub open spec fn accounts_after(
    accounts: Map<Seq<u8>, OAppAccount>,
    rent: u64,
    attempts: Seq<Attempt>,
) -> Map<Seq<u8>, OAppAccount>
    decreases attempts.len(),
{
    if attempts.len() == 0 {
        accounts
    } else {
        let last = attempts.last();
        register_spec(
            accounts_after(accounts, rent, attempts.drop_last()),
            rent,
            oapp_address(last.caller),
            last.supplied,
            last.funds,
            last.params,
        ).accounts
    }
}

/// An account is permanent: whatever requests follow, it stays where it is
/// with the content it has.
pub proof fn lemma_accounts_are_permanent(
    accounts: Map<Seq<u8>, OAppAccount>,
    rent: u64,
    attempts: Seq<Attempt>,
)
    ensures
        forall|a: Seq<u8>| #[trigger]
            accounts.dom().contains(a) ==> accounts_after(accounts, rent, attempts).dom().contains(a)
                && accounts_after(accounts, rent, attempts)[a] == accounts[a],
    decreases attempts.len(),
{
    if attempts.len() > 0 {
        lemma_accounts_are_permanent(accounts, rent, attempts.drop_last());
    }
}

/// In a ledger that started empty, every account sits at the address derived
/// for the caller of one of the requests made, and holds the payload of that
/// request, the bump of that derivation and the rent.
pub proof fn lemma_every_account_is_derived(rent: u64, attempts: Seq<Attempt>)
    ensures
        forall|a: Seq<u8>| #[trigger]
            accounts_after(Map::empty(), rent, attempts).dom().contains(a) ==> exists|i: int|
                0 <= i < attempts.len() && (#[trigger] attempts[i]).supplied == a && oapp_address(
                    attempts[i].caller,
                ) == Some((a, accounts_after(Map::empty(), rent, attempts)[a].bump))
                    && accounts_after(Map::empty(), rent, attempts)[a].params == attempts[i].params
                    && accounts_after(Map::empty(), rent, attempts)[a].lamports == rent,
    decreases attempts.len(),
{
    if attempts.len() > 0 {
        let before = attempts.drop_last();
        let last = attempts.last();
        let accounts = accounts_after(Map::empty(), rent, before);
        let after = accounts_after(Map::empty(), rent, attempts);
        lemma_every_account_is_derived(rent, before);
        assert forall|a: Seq<u8>| #[trigger] after.dom().contains(a) implies exists|i: int|
            0 <= i < attempts.len() && (#[trigger] attempts[i]).supplied == a && oapp_address(
                attempts[i].caller,
            ) == Some((a, after[a].bump)) && after[a].params == attempts[i].params && after[a].lamports
                == rent by {
            if accounts.dom().contains(a) {
                let i = choose|i: int|
                    0 <= i < before.len() && (#[trigger] before[i]).supplied == a && oapp_address(
                        before[i].caller,
                    ) == Some((a, accounts[a].bump)) && accounts[a].params == before[i].params
                        && accounts[a].lamports == rent;
                assert(attempts[i] == before[i]);
            } else {
                assert(attempts[attempts.len() - 1] == last);
            }
        }
    }
}

} // verus!

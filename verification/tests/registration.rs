use std::str::FromStr;

use anchor_lang::prelude::Pubkey;
use endpoint_mock::address::Address;
use endpoint_mock::derivation::find_program_address;
use endpoint_mock::errors::RegisterError;
use endpoint_mock::instructions::{check_registration, Caller, RegisterOApp};
use endpoint_mock::state::{Ledger, OAppAccount, RegisterOAppParams};
use endpoint_mock::{find_oapp_address, id, register_oapp, OAPP_SEED};

const RENT: u64 = 1_000;

fn caller_a() -> Address {
    Address::new([7u8; 32])
}

fn caller_b() -> Address {
    Address::new([8u8; 32])
}

fn request(key: Address, lamports: u64) -> RegisterOApp {
    let (oapp_account, _) = find_oapp_address(&key).unwrap();
    RegisterOApp { caller: Caller { key, lamports }, oapp_account }
}

#[test]
fn seed_label_is_oapp() {
    assert_eq!(&OAPP_SEED, b"OApp");
}

#[test]
fn program_id_is_the_declared_one() {
    let declared = Pubkey::from_str("9pvNUNpy1mzVDADEB6gh1qrtGdRTztzjBxezNSxj1scV").unwrap();
    assert_eq!(id().to_bytes(), declared.to_bytes());
}

#[test]
fn derived_address_is_the_runtime_derivation() {
    let program = Pubkey::new_from_array(id().to_bytes());
    let caller = caller_a();
    let (expected, expected_bump) =
        Pubkey::find_program_address(&[b"OApp", &caller.to_bytes()], &program);
    let (address, bump) = find_oapp_address(&caller).unwrap();
    assert_eq!(address.to_bytes(), expected.to_bytes());
    assert_eq!(bump, expected_bump);
    assert_ne!(address, caller);
    assert_ne!(address, id());
}

#[test]
fn derived_address_recreates_from_its_bump() {
    let program = Pubkey::new_from_array(id().to_bytes());
    let caller = caller_b();
    let (address, bump) = find_oapp_address(&caller).unwrap();
    let again =
        Pubkey::create_program_address(&[b"OApp", &caller.to_bytes(), &[bump]], &program).unwrap();
    assert_eq!(address.to_bytes(), again.to_bytes());
}

#[test]
fn derivation_takes_the_label_it_is_given() {
    let program = Address::new([5u8; 32]);
    let owner = caller_a();
    let (expected, expected_bump) = Pubkey::find_program_address(
        &[b"vault", &owner.to_bytes()],
        &Pubkey::new_from_array(program.to_bytes()),
    );
    let (address, bump) = find_program_address(b"vault", &owner, &program).unwrap();
    assert_eq!(address.to_bytes(), expected.to_bytes());
    assert_eq!(bump, expected_bump);
    assert_ne!(Some((address, bump)), find_program_address(&OAPP_SEED, &owner, &program));
    assert_ne!(Some((address, bump)), find_program_address(b"vault", &owner, &id()));
    assert_eq!(find_oapp_address(&owner), find_program_address(b"OApp", &owner, &id()));
}

#[test]
fn overlong_label_has_no_address() {
    assert_eq!(find_program_address(&[1u8; 33], &caller_a(), &id()), None);
    assert!(find_program_address(&[1u8; 32], &caller_a(), &id()).is_some());
}

#[test]
fn derivation_is_deterministic() {
    assert_eq!(find_oapp_address(&caller_a()), find_oapp_address(&caller_a()));
}

#[test]
fn different_callers_get_different_addresses() {
    let (a, _) = find_oapp_address(&caller_a()).unwrap();
    let (b, _) = find_oapp_address(&caller_b()).unwrap();
    assert_ne!(a, b);
}

#[test]
fn first_registration_creates_the_account() {
    let mut ledger = Ledger::new(RENT);
    let mut ctx = request(caller_a(), 2_500);
    let (address, bump) = find_oapp_address(&caller_a()).unwrap();
    assert_eq!(ledger.get(&address), None);

    let result = register_oapp(&mut ledger, &mut ctx, RegisterOAppParams { foo: 1 });

    assert_eq!(result, Ok(()));
    assert_eq!(ledger.len(), 1);
    assert!(ledger.contains(&address));
    assert_eq!(
        ledger.get(&address),
        Some(OAppAccount { params: RegisterOAppParams { foo: 1 }, bump, lamports: RENT })
    );
    assert_eq!(ctx.caller.lamports, 1_500);
    assert_eq!(ctx.caller.key, caller_a());
    assert_eq!(ctx.oapp_account, address);
    assert_eq!(ledger.rent(), RENT);
}

#[test]
fn second_registration_is_a_duplicate_and_keeps_the_first() {
    let mut ledger = Ledger::new(RENT);
    let mut ctx = request(caller_a(), 5_000);
    let address = ctx.oapp_account;

    assert_eq!(register_oapp(&mut ledger, &mut ctx, RegisterOAppParams { foo: 1 }), Ok(()));
    let first = ledger.get(&address);

    assert_eq!(
        register_oapp(&mut ledger, &mut ctx, RegisterOAppParams { foo: 2 }),
        Err(RegisterError::AlreadyRegistered)
    );
    assert_eq!(ledger.get(&address), first);
    assert_eq!(ledger.get(&address).unwrap().params, RegisterOAppParams { foo: 1 });
    assert_eq!(ledger.len(), 1);
    assert_eq!(ctx.caller.lamports, 4_000);
}

#[test]
fn duplicate_is_reported_even_without_funds() {
    let mut ledger = Ledger::new(RENT);
    let mut ctx = request(caller_a(), RENT);
    assert_eq!(register_oapp(&mut ledger, &mut ctx, RegisterOAppParams { foo: 1 }), Ok(()));
    assert_eq!(ctx.caller.lamports, 0);
    assert_eq!(
        register_oapp(&mut ledger, &mut ctx, RegisterOAppParams { foo: 1 }),
        Err(RegisterError::AlreadyRegistered)
    );
}

#[test]
fn stored_params_round_trip() {
    let mut ledger = Ledger::new(RENT);
    let params = RegisterOAppParams { foo: u64::MAX };
    let mut ctx = request(caller_b(), RENT);
    assert_eq!(register_oapp(&mut ledger, &mut ctx, params), Ok(()));
    assert_eq!(ledger.get(&ctx.oapp_account).unwrap().params, params);
}

#[test]
fn wrong_address_is_refused_and_retry_succeeds() {
    let mut ledger = Ledger::new(RENT);
    let mut ctx = request(caller_a(), 1_200);
    let right = ctx.oapp_account;
    let wrong = Address::new([9u8; 32]);
    ctx.oapp_account = wrong;

    assert_eq!(
        register_oapp(&mut ledger, &mut ctx, RegisterOAppParams { foo: 3 }),
        Err(RegisterError::AddressMismatch)
    );
    assert_eq!(ledger.len(), 0);
    assert!(!ledger.contains(&wrong));
    assert!(!ledger.contains(&right));
    assert_eq!(ctx.caller.lamports, 1_200);

    ctx.oapp_account = right;
    assert_eq!(register_oapp(&mut ledger, &mut ctx, RegisterOAppParams { foo: 3 }), Ok(()));
    assert_eq!(ledger.get(&right).unwrap().params, RegisterOAppParams { foo: 3 });
    assert_eq!(ctx.caller.lamports, 200);
}

#[test]
fn another_callers_address_is_a_mismatch() {
    let mut ledger = Ledger::new(RENT);
    let mut ctx = request(caller_a(), 5_000);
    ctx.oapp_account = find_oapp_address(&caller_b()).unwrap().0;
    assert_eq!(
        register_oapp(&mut ledger, &mut ctx, RegisterOAppParams { foo: 1 }),
        Err(RegisterError::AddressMismatch)
    );
    assert_eq!(ledger.len(), 0);
}

#[test]
fn caller_without_funds_is_refused() {
    let mut ledger = Ledger::new(RENT);
    let mut ctx = request(caller_a(), RENT - 1);
    assert_eq!(
        register_oapp(&mut ledger, &mut ctx, RegisterOAppParams { foo: 1 }),
        Err(RegisterError::InsufficientFunds)
    );
    assert_eq!(ledger.len(), 0);
    assert_eq!(ctx.caller.lamports, RENT - 1);

    ctx.caller.lamports = RENT;
    assert_eq!(register_oapp(&mut ledger, &mut ctx, RegisterOAppParams { foo: 1 }), Ok(()));
    assert_eq!(ctx.caller.lamports, 0);
}

#[test]
fn free_storage_needs_no_funds() {
    let mut ledger = Ledger::new(0);
    let mut ctx = request(caller_a(), 0);
    assert_eq!(register_oapp(&mut ledger, &mut ctx, RegisterOAppParams { foo: 1 }), Ok(()));
    assert_eq!(ledger.get(&ctx.oapp_account).unwrap().lamports, 0);
}

#[test]
fn two_callers_register_side_by_side() {
    let mut ledger = Ledger::new(RENT);
    let mut a = request(caller_a(), RENT);
    let mut b = request(caller_b(), RENT);
    assert_eq!(register_oapp(&mut ledger, &mut a, RegisterOAppParams { foo: 10 }), Ok(()));
    assert_eq!(register_oapp(&mut ledger, &mut b, RegisterOAppParams { foo: 20 }), Ok(()));
    assert_eq!(ledger.len(), 2);
    assert_eq!(ledger.get(&a.oapp_account).unwrap().params, RegisterOAppParams { foo: 10 });
    assert_eq!(ledger.get(&b.oapp_account).unwrap().params, RegisterOAppParams { foo: 20 });
}

#[test]
fn apply_is_what_register_oapp_does() {
    let mut one = Ledger::new(RENT);
    let mut two = Ledger::new(RENT);
    let mut ctx_one = request(caller_a(), 3_000);
    let mut ctx_two = request(caller_a(), 3_000);
    let params = RegisterOAppParams { foo: 5 };
    assert_eq!(
        RegisterOApp::apply(&mut one, &mut ctx_one, &params),
        register_oapp(&mut two, &mut ctx_two, params)
    );
    assert_eq!(one.get(&ctx_one.oapp_account), two.get(&ctx_two.oapp_account));
    assert_eq!(ctx_one.caller.lamports, ctx_two.caller.lamports);
}

#[test]
fn apply_derived_follows_the_given_derivation() {
    let mut ledger = Ledger::new(10);
    let at = Address::new([2u8; 32]);
    let mut ctx = RegisterOApp { caller: Caller { key: caller_a(), lamports: 25 }, oapp_account: at };
    let params = RegisterOAppParams { foo: 1 };

    assert_eq!(
        RegisterOApp::apply_derived(&mut ledger, &mut ctx, None, &params),
        Err(RegisterError::AddressMismatch)
    );
    assert_eq!(
        RegisterOApp::apply_derived(&mut ledger, &mut ctx, Some((caller_b(), 255)), &params),
        Err(RegisterError::AddressMismatch)
    );
    assert_eq!(ledger.len(), 0);
    assert_eq!(ctx.caller.lamports, 25);

    assert_eq!(RegisterOApp::apply_derived(&mut ledger, &mut ctx, Some((at, 254)), &params), Ok(()));
    assert_eq!(ledger.get(&at), Some(OAppAccount { params, bump: 254, lamports: 10 }));
    assert_eq!(ctx.caller.lamports, 15);
}

#[test]
fn check_registration_judges_address_then_vacancy_then_funds() {
    let at = Address::new([2u8; 32]);
    let other = Address::new([3u8; 32]);
    assert_eq!(check_registration(Some((at, 250)), &at, false, 10, 10), Ok(250));
    assert_eq!(check_registration(Some((at, 250)), &at, false, 9, 10), Err(RegisterError::InsufficientFunds));
    assert_eq!(check_registration(Some((at, 250)), &at, true, 10, 10), Err(RegisterError::AlreadyRegistered));
    assert_eq!(check_registration(Some((at, 250)), &at, true, 0, 10), Err(RegisterError::AlreadyRegistered));
    assert_eq!(check_registration(Some((at, 250)), &other, true, 0, 10), Err(RegisterError::AddressMismatch));
    assert_eq!(check_registration(Some((at, 250)), &other, false, 10, 10), Err(RegisterError::AddressMismatch));
    assert_eq!(check_registration(None, &at, false, 10, 10), Err(RegisterError::AddressMismatch));
}

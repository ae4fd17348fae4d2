use solcreator_program::addr::{
    check_global_address, check_user_address, derive_global_address, derive_user_address,
    rederive_user_address,
};
use solcreator_program::AccountId;

fn id(n: u8) -> AccountId {
    let mut a = [0u8; 32];
    a[0] = n;
    a
}

fn pid() -> AccountId {
    [7u8; 32]
}

#[test]
fn derivation_is_deterministic() {
    let program_id = pid();
    let user = id(3);
    let first = derive_user_address(&user, &program_id).unwrap();
    let second = derive_user_address(&user, &program_id).unwrap();
    assert_eq!(first.0, second.0);
    assert_eq!(first.1, second.1);
    let g1 = derive_global_address(&program_id).unwrap();
    let g2 = derive_global_address(&program_id).unwrap();
    assert_eq!(g1.0, g2.0);
    assert_eq!(g1.1, g2.1);
}

#[test]
fn derivation_transforms_its_inputs() {
    let program_id = pid();
    let user = id(3);
    let (addr, _bump) = derive_user_address(&user, &program_id).unwrap();
    assert_ne!(addr, user);
    assert_ne!(addr, program_id);
    let (gaddr, _gbump) = derive_global_address(&program_id).unwrap();
    assert_ne!(gaddr, program_id);
    assert_ne!(gaddr, addr);
}

#[test]
fn distinct_owners_get_distinct_addresses() {
    let program_id = pid();
    let (a, _) = derive_user_address(&id(3), &program_id).unwrap();
    let (b, _) = derive_user_address(&id(4), &program_id).unwrap();
    assert_ne!(a, b);
}

#[test]
fn rederiving_with_stored_bump_reproduces_address() {
    let program_id = pid();
    let user = id(3);
    let (addr, bump) = derive_user_address(&user, &program_id).unwrap();
    let again = rederive_user_address(&user, bump, &program_id).unwrap();
    assert_eq!(addr, again);
    assert!(check_user_address(&addr, &user, bump, &program_id).is_ok());
    let (gaddr, gbump) = derive_global_address(&program_id).unwrap();
    assert!(check_global_address(&gaddr, gbump, &program_id).is_ok());
}

#[test]
fn wrong_claimed_address_is_a_mismatch() {
    let program_id = pid();
    let user = id(3);
    let (_addr, bump) = derive_user_address(&user, &program_id).unwrap();
    let wrong = id(9);
    assert!(matches!(
        check_user_address(&wrong, &user, bump, &program_id),
        Err(solcreator_program::SolCreatorError::AddressMismatch)
    ));
}

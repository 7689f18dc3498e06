use my_stash::address::Address;
use my_stash::account::StashAccount;
use my_stash::errors::VaultError;
use my_stash::ops;

fn addr(tag: u8) -> Address {
    Address { bytes: [tag; 32] }
}

#[test]
fn unlock_time_exact_value() {
    assert_eq!(ops::get_unlock_time(100, 10), Ok(110));
    assert_eq!(ops::get_unlock_time(-50, 20), Ok(-30));
    assert_eq!(ops::get_unlock_time(0, 0), Ok(0));
    assert_eq!(ops::get_unlock_time(0, i64::MAX as u64), Ok(i64::MAX));
}

#[test]
fn unlock_time_negative_duration() {
    assert_eq!(ops::get_unlock_time(100, u64::MAX), Err(VaultError::InvalidDuration));
    assert_eq!(
        ops::get_unlock_time(0, (i64::MAX as u64) + 1),
        Err(VaultError::InvalidDuration)
    );
}

#[test]
fn unlock_time_overflow() {
    assert_eq!(ops::get_unlock_time(i64::MAX, 1), Err(VaultError::TimeOverflow));
    assert_eq!(
        ops::get_unlock_time(i64::MAX - 5, 10),
        Err(VaultError::TimeOverflow)
    );
    assert_eq!(ops::get_unlock_time(i64::MAX - 5, 5), Ok(i64::MAX));
}

#[test]
fn is_locked_edges() {
    assert!(ops::is_locked(10, 9));
    assert!(!ops::is_locked(10, 10));
    assert!(!ops::is_locked(10, 11));
    assert!(ops::is_locked(0, -1));
}

#[test]
fn initialize_builds_record_and_assignment() {
    let depositor = addr(1);
    let holding = addr(2);
    let program = addr(3);
    let (record, assignment) =
        ops::initialize(&depositor, &holding, 10, 100, &program).unwrap();
    assert_eq!(record.initializer_key.bytes, depositor.bytes);
    assert_eq!(record.stash_token_account.bytes, holding.bytes);
    assert_eq!(record.unlock_time, 110);
    assert_eq!(assignment.account.bytes, holding.bytes);
    // The derived signer is a genuine derivation, not any input echoed back.
    assert_ne!(assignment.new_authority.bytes, program.bytes);
    assert_ne!(assignment.new_authority.bytes, depositor.bytes);
    assert_ne!(assignment.new_authority.bytes, holding.bytes);
}

#[test]
fn initialize_derivation_is_deterministic() {
    let depositor = addr(1);
    let holding = addr(2);
    let program = addr(3);
    let (_, a1) = ops::initialize(&depositor, &holding, 10, 100, &program).unwrap();
    let (_, a2) = ops::initialize(&depositor, &holding, 99, 4242, &program).unwrap();
    assert_eq!(a1.new_authority.bytes, a2.new_authority.bytes);
    // A different program address gives a different signer.
    let (_, a3) = ops::initialize(&depositor, &holding, 10, 100, &addr(4)).unwrap();
    assert_ne!(a1.new_authority.bytes, a3.new_authority.bytes);
}

#[test]
fn initialize_rejects_bad_durations() {
    let depositor = addr(1);
    let holding = addr(2);
    let program = addr(3);
    assert!(matches!(
        ops::initialize(&depositor, &holding, u64::MAX, 100, &program),
        Err(VaultError::InvalidDuration)
    ));
    assert!(matches!(
        ops::initialize(&depositor, &holding, 10, i64::MAX - 5, &program),
        Err(VaultError::TimeOverflow)
    ));
}

#[test]
fn retrieve_plan_matches_initialize() {
    let depositor = addr(1);
    let holding = addr(2);
    let receiver = addr(5);
    let program = addr(3);
    let (record, assignment) =
        ops::initialize(&depositor, &holding, 10, 100, &program).unwrap();
    let plan = ops::retrieve(&depositor, &record, &holding, 1000, &receiver, 110, &program)
        .unwrap();
    assert_eq!(plan.transfer_from.bytes, holding.bytes);
    assert_eq!(plan.transfer_to.bytes, receiver.bytes);
    assert_eq!(plan.transfer_amount, 1000);
    assert_eq!(plan.close_to.bytes, depositor.bytes);
    // The release re-derives the same signer that custody was given to.
    assert_eq!(plan.authority.bytes, assignment.new_authority.bytes);
}

#[test]
fn retrieve_rejects_early_and_wrong_callers() {
    let depositor = addr(1);
    let holding = addr(2);
    let receiver = addr(5);
    let program = addr(3);
    let record = StashAccount {
        initializer_key: depositor,
        stash_token_account: holding,
        unlock_time: 110,
    };
    assert!(matches!(
        ops::retrieve(&depositor, &record, &holding, 1000, &receiver, 109, &program),
        Err(VaultError::StillLocked)
    ));
    // A wrong caller is refused before the lock check, whatever the time.
    assert!(matches!(
        ops::retrieve(&addr(9), &record, &holding, 1000, &receiver, 109, &program),
        Err(VaultError::ConstraintViolation)
    ));
    assert!(matches!(
        ops::retrieve(&addr(9), &record, &holding, 1000, &receiver, 500, &program),
        Err(VaultError::ConstraintViolation)
    ));
    // A mismatched holding reference is refused too.
    assert!(matches!(
        ops::retrieve(&depositor, &record, &addr(8), 1000, &receiver, 500, &program),
        Err(VaultError::ConstraintViolation)
    ));
}

#[test]
fn address_equals_is_byte_equality() {
    let a = addr(1);
    let b = addr(1);
    let mut c = addr(1);
    c.bytes[31] = 2;
    assert!(a.equals(&b));
    assert!(!a.equals(&c));
    assert_eq!(Address::new([7; 32]).bytes, [7; 32]);
}

use claimable_balance::address::addr_eq;
use claimable_balance::address::contains_address;
use claimable_balance::time_bound::check_time_bound;
use claimable_balance::Address;
use claimable_balance::CustomError;
use claimable_balance::TimeBound;
use claimable_balance::TimeBoundKind;

#[test]
fn error_codes_are_stable() {
    assert_eq!(CustomError::TooManyClaimants.code(), 1);
    assert_eq!(CustomError::AlreadyInitialized.code(), 2);
    assert_eq!(CustomError::TimePredicateNotFulfilled.code(), 3);
    assert_eq!(CustomError::ClaimantNotAllowed.code(), 4);
    assert_eq!(CustomError::NoActiveBalance.code(), 5);
}

#[test]
fn before_bound_holds_up_to_its_timestamp() {
    let tb = TimeBound { kind: TimeBoundKind::Before, timestamp: 100 };
    assert!(check_time_bound(&tb, 0));
    assert!(check_time_bound(&tb, 99));
    assert!(check_time_bound(&tb, 100));
    assert!(!check_time_bound(&tb, 101));
    assert!(!check_time_bound(&tb, u64::MAX));
}

#[test]
fn after_bound_holds_from_its_timestamp_on() {
    let tb = TimeBound { kind: TimeBoundKind::After, timestamp: 100 };
    assert!(!check_time_bound(&tb, 0));
    assert!(!check_time_bound(&tb, 99));
    assert!(check_time_bound(&tb, 100));
    assert!(check_time_bound(&tb, 101));
    assert!(check_time_bound(&tb, u64::MAX));
}

#[test]
fn addresses_compare_by_their_bytes() {
    let a = Address::new(vec![1, 2, 3]);
    let b = Address::new(vec![1, 2, 3]);
    let c = Address::new(vec![1, 2, 4]);
    let d = Address::new(vec![1, 2]);
    assert!(addr_eq(&a, &b));
    assert!(!addr_eq(&a, &c));
    assert!(!addr_eq(&a, &d));
    assert!(addr_eq(&d, &d));
}

#[test]
fn address_clone_keeps_the_bytes() {
    let a = Address::new(vec![4, 5]);
    let b = a.clone();
    assert_eq!(b.bytes, vec![4, 5]);
}

#[test]
fn membership_ignores_order_and_position() {
    let list = vec![Address::new(vec![1]), Address::new(vec![2]), Address::new(vec![3])];
    assert!(contains_address(&list, &Address::new(vec![1])));
    assert!(contains_address(&list, &Address::new(vec![2])));
    assert!(contains_address(&list, &Address::new(vec![3])));
    assert!(!contains_address(&list, &Address::new(vec![4])));
    let empty: Vec<Address> = vec![];
    assert!(!contains_address(&empty, &Address::new(vec![1])));
}

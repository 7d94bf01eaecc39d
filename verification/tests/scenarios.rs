use pallet_num_storage::{Config, Error, Event, Pallet};

#[derive(Debug, PartialEq, Eq)]
struct Runtime;

impl Config for Runtime {
    type AccountId = u64;
}

const ALICE: u64 = 1;
const BOB: u64 = 2;
const CAROL: u64 = 3;

#[test]
fn put_stores_the_number_and_deposits_value_stored() {
    let mut pallet = Pallet::<Runtime>::new();
    assert_eq!(pallet.put_number(ALICE, 42), Ok(()));
    assert_eq!(pallet.get(&ALICE), Some(42));
    assert!(pallet.contains(&ALICE));
    assert!(pallet.events().contains(&Event::ValueStored(42, ALICE)));
    assert_eq!(pallet.events().len(), 1);
}

#[test]
fn second_put_overwrites_the_first() {
    let mut pallet = Pallet::<Runtime>::new();
    assert_eq!(pallet.put_number(ALICE, 42), Ok(()));
    assert_eq!(pallet.put_number(ALICE, 7), Ok(()));
    assert_eq!(pallet.get(&ALICE), Some(7));
    assert_eq!(
        pallet.events(),
        &[Event::<Runtime>::ValueStored(42, ALICE), Event::ValueStored(7, ALICE)][..]
    );
}

#[test]
fn remove_without_a_number_fails_with_none_key() {
    let mut pallet = Pallet::<Runtime>::new();
    assert_eq!(pallet.remove_number(BOB), Err(Error::NoneKey));
    assert_eq!(pallet.get(&BOB), None);
    assert!(!pallet.contains(&BOB));
    assert!(pallet.events().is_empty());
}

#[test]
fn remove_returns_the_number_and_deposits_value_removed() {
    let mut pallet = Pallet::<Runtime>::new();
    assert_eq!(pallet.put_number(CAROL, 100), Ok(()));
    assert_eq!(pallet.remove_number(CAROL), Ok(100));
    assert_eq!(pallet.get(&CAROL), None);
    assert!(!pallet.contains(&CAROL));
    assert!(pallet.events().contains(&Event::ValueRemoved(100, CAROL)));
    assert_eq!(
        pallet.events(),
        &[Event::<Runtime>::ValueStored(100, CAROL), Event::ValueRemoved(100, CAROL)][..]
    );
}

#[test]
fn two_accounts_keep_their_own_numbers() {
    let mut pallet = Pallet::<Runtime>::new();
    assert_eq!(pallet.put_number(ALICE, 1), Ok(()));
    assert_eq!(pallet.put_number(BOB, 2), Ok(()));
    assert_eq!(pallet.get(&ALICE), Some(1));
    assert_eq!(pallet.get(&BOB), Some(2));
}

#[test]
fn new_pallet_is_empty() {
    let pallet = Pallet::<Runtime>::new();
    assert_eq!(pallet.get(&ALICE), None);
    assert!(!pallet.contains(&ALICE));
    assert!(pallet.events().is_empty());
}

use sudt::error::{Error, Signal};
use sudt::host::{Reading, Transaction};
use sudt::owner::{check_owner_mode, inspect_lock, same_bytes, Glance};

fn hash(byte: u8) -> Reading {
    Reading::Bytes(vec![byte; 32])
}

fn with_inputs(inputs: Vec<Reading>) -> Transaction {
    Transaction {
        script: Reading::Failed(Signal::ItemMissing),
        inputs,
        group_inputs: vec![Reading::Bytes(vec![0xAA; 32])],
        group_outputs: vec![],
    }
}

#[test]
fn same_bytes_compares_length_and_content() {
    assert!(same_bytes(&[], &[]));
    assert!(same_bytes(&[1, 2, 3], &[1, 2, 3]));
    assert!(!same_bytes(&[1, 2, 3], &[1, 2, 4]));
    assert!(!same_bytes(&[0, 2, 3], &[1, 2, 3]));
    assert!(!same_bytes(&[1, 2, 3], &[1, 2]));
    assert!(!same_bytes(&[], &[0]));
}

#[test]
fn inspect_lock_tells_the_readings_apart() {
    let owner = [0xAA; 32];
    assert_eq!(inspect_lock(&owner, &hash(0xAA)), Glance::Owner);
    assert_eq!(inspect_lock(&owner, &hash(0xAB)), Glance::Stranger);
    let mut close = vec![0xAA; 32];
    close[31] = 0;
    assert_eq!(inspect_lock(&owner, &Reading::Bytes(close)), Glance::Stranger);
    assert_eq!(
        inspect_lock(&owner, &Reading::Bytes(vec![0xAA; 31])),
        Glance::Fail(Error::Encoding)
    );
    assert_eq!(inspect_lock(&owner, &Reading::Bytes(vec![])), Glance::Fail(Error::Encoding));
    assert_eq!(inspect_lock(&owner, &Reading::Failed(Signal::IndexOutOfBound)), Glance::End);
    assert_eq!(
        inspect_lock(&owner, &Reading::Failed(Signal::ItemMissing)),
        Glance::Fail(Error::ItemMissing)
    );
    assert_eq!(
        inspect_lock(&owner, &Reading::Failed(Signal::LengthNotEnough)),
        Glance::Fail(Error::LengthNotEnough)
    );
}

#[test]
fn inspect_lock_with_an_owner_of_another_length() {
    assert_eq!(inspect_lock(&[0xAA; 31], &hash(0xAA)), Glance::Stranger);
    assert_eq!(inspect_lock(&[], &hash(0)), Glance::Stranger);
    assert_eq!(
        inspect_lock(&[0xAA; 31], &Reading::Bytes(vec![0xAA; 31])),
        Glance::Fail(Error::Encoding)
    );
}

#[test]
fn owner_mode_finds_the_owner_anywhere() {
    let owner = [0xAA; 32];
    assert_eq!(check_owner_mode(&owner, &with_inputs(vec![hash(0xAA)])), Ok(true));
    assert_eq!(
        check_owner_mode(&owner, &with_inputs(vec![hash(1), hash(2), hash(0xAA)])),
        Ok(true)
    );
    assert_eq!(
        check_owner_mode(&owner, &with_inputs(vec![hash(0xAA), Reading::Bytes(vec![1])])),
        Ok(true)
    );
}

#[test]
fn owner_mode_is_off_without_the_owner() {
    let owner = [0xAA; 32];
    assert_eq!(check_owner_mode(&owner, &with_inputs(vec![])), Ok(false));
    assert_eq!(check_owner_mode(&owner, &with_inputs(vec![hash(1), hash(2)])), Ok(false));
}

#[test]
fn owner_mode_looks_at_the_inputs_only() {
    let owner = [0xAA; 32];
    let tx = Transaction {
        script: Reading::Bytes(vec![0xAA; 32]),
        inputs: vec![hash(1)],
        group_inputs: vec![hash(0xAA)],
        group_outputs: vec![hash(0xAA)],
    };
    assert_eq!(check_owner_mode(&owner, &tx), Ok(false));
}

#[test]
fn owner_mode_fails_at_the_first_bad_reading() {
    let owner = [0xAA; 32];
    assert_eq!(
        check_owner_mode(&owner, &with_inputs(vec![hash(1), Reading::Bytes(vec![0xAA; 8]), hash(0xAA)])),
        Err(Error::Encoding)
    );
    assert_eq!(
        check_owner_mode(&owner, &with_inputs(vec![Reading::Failed(Signal::LengthNotEnough)])),
        Err(Error::LengthNotEnough)
    );
    assert_eq!(
        check_owner_mode(&owner, &with_inputs(vec![Reading::Failed(Signal::ItemMissing)])),
        Err(Error::ItemMissing)
    );
}

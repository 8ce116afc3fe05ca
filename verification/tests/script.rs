use ckb_types::packed::Script;
use ckb_types::prelude::{Builder, Entity};
use sudt::error::{Error, Signal};
use sudt::host::Reading;
use sudt::script::{load_args, try_load_args};

fn serialised(args: &[u8]) -> Vec<u8> {
    Script::new_builder().args(args).build().as_slice().to_vec()
}

fn by_hand(code_hash: [u8; 32], hash_type: u8, args: &[u8]) -> Vec<u8> {
    let total = 16 + 32 + 1 + 4 + args.len();
    let mut bytes = Vec::new();
    bytes.extend_from_slice(&(total as u32).to_le_bytes());
    bytes.extend_from_slice(&16u32.to_le_bytes());
    bytes.extend_from_slice(&48u32.to_le_bytes());
    bytes.extend_from_slice(&49u32.to_le_bytes());
    bytes.extend_from_slice(&code_hash);
    bytes.push(hash_type);
    bytes.extend_from_slice(&(args.len() as u32).to_le_bytes());
    bytes.extend_from_slice(args);
    bytes
}

#[test]
fn args_are_unpacked_from_the_descriptor() {
    let owner = [0xAA; 32];
    let descriptor = serialised(&owner);
    assert_eq!(descriptor.len(), 53 + 32);
    assert_eq!(load_args(&Reading::Bytes(descriptor.clone())), Ok(owner.to_vec()));
    assert_eq!(try_load_args(&Reading::Bytes(descriptor)), Some(Ok(owner.to_vec())));
}

#[test]
fn args_of_any_length_are_unpacked() {
    assert_eq!(load_args(&Reading::Bytes(serialised(&[]))), Ok(vec![]));
    assert_eq!(load_args(&Reading::Bytes(serialised(&[1, 2, 3]))), Ok(vec![1, 2, 3]));
    let long: Vec<u8> = (0..200u8).collect();
    assert_eq!(load_args(&Reading::Bytes(serialised(&long))), Ok(long));
}

#[test]
fn args_do_not_depend_on_the_other_fields() {
    let descriptor = by_hand([7; 32], 1, &[9, 8, 7, 6]);
    assert_eq!(load_args(&Reading::Bytes(descriptor)), Ok(vec![9, 8, 7, 6]));
    assert_eq!(by_hand([0; 32], 0, &[0xAA; 32]), serialised(&[0xAA; 32]));
}

#[test]
fn failed_read_of_the_descriptor_is_passed_on() {
    assert_eq!(
        load_args(&Reading::Failed(Signal::LengthNotEnough)),
        Err(Error::LengthNotEnough)
    );
    assert_eq!(load_args(&Reading::Failed(Signal::ItemMissing)), Err(Error::ItemMissing));
    assert_eq!(
        try_load_args(&Reading::Failed(Signal::IndexOutOfBound)),
        Some(Err(Error::IndexOutOfBound))
    );
}

#[test]
fn bytes_that_are_no_script_are_told() {
    assert_eq!(try_load_args(&Reading::Bytes(vec![])), None);
    assert_eq!(try_load_args(&Reading::Bytes(vec![0xAA; 32])), None);
    let mut cut = serialised(&[0xAA; 32]);
    cut.pop();
    assert_eq!(try_load_args(&Reading::Bytes(cut)), None);
    let mut long = serialised(&[0xAA; 32]);
    long.push(0);
    assert_eq!(try_load_args(&Reading::Bytes(long)), None);
    let mut wrong_count = by_hand([0; 32], 0, &[1, 2, 3]);
    wrong_count[49] = 4;
    assert_eq!(try_load_args(&Reading::Bytes(wrong_count)), None);
}

use ckb_types::packed::Script;
use ckb_types::prelude::{Builder, Entity};
use sudt::error::{Error, Signal};
use sudt::host::{Reading, Transaction};
use sudt::machine::{serve, Group, Request, State};
use sudt::verify::check;

fn descriptor(args: &[u8]) -> Reading {
    Reading::Bytes(Script::new_builder().args(args).build().as_slice().to_vec())
}

fn hash(byte: u8) -> Reading {
    Reading::Bytes(vec![byte; 32])
}

fn cell(amount: u128) -> Reading {
    Reading::Bytes(amount.to_le_bytes().to_vec())
}

fn end() -> Reading {
    Reading::Failed(Signal::IndexOutOfBound)
}

fn drive(tx: &Transaction) -> (Result<(), Error>, Vec<Request>) {
    let mut state = State::new();
    let mut asked = Vec::new();
    while let Some(request) = state.request() {
        asked.push(request);
        state = state.try_step(&serve(tx, request)).unwrap();
    }
    (state.verdict().unwrap(), asked)
}

fn feed(readings: Vec<Reading>) -> State {
    let mut state = State::new();
    for reading in readings {
        state = state.step(&reading);
    }
    state
}

#[test]
fn machine_starts_with_the_descriptor() {
    let state = State::new();
    assert_eq!(state.request(), Some(Request::Script));
    assert_eq!(state.verdict(), None);
}

#[test]
fn requests_offer_the_room_of_their_kind() {
    assert_eq!(Request::Script.capacity(), 1024);
    assert_eq!(Request::LockHash { index: 3 }.capacity(), 32);
    assert_eq!(Request::Payload { group: Group::Inputs, index: 0 }.capacity(), 16);
    assert_eq!(Request::Payload { group: Group::Outputs, index: 9 }.capacity(), 16);
}

#[test]
fn machine_stops_at_the_owner() {
    let tx = Transaction {
        script: descriptor(&[0xAA; 32]),
        inputs: vec![hash(1), hash(0xAA), hash(2)],
        group_inputs: vec![cell(1)],
        group_outputs: vec![cell(2)],
    };
    let (verdict, asked) = drive(&tx);
    assert_eq!(verdict, Ok(()));
    assert_eq!(
        asked,
        vec![Request::Script, Request::LockHash { index: 0 }, Request::LockHash { index: 1 }]
    );
}

#[test]
fn machine_reads_each_list_to_its_end() {
    let tx = Transaction {
        script: descriptor(&[0xAA; 32]),
        inputs: vec![hash(1)],
        group_inputs: vec![cell(100)],
        group_outputs: vec![cell(150)],
    };
    let (verdict, asked) = drive(&tx);
    assert_eq!(verdict, Err(Error::Amount));
    assert_eq!(
        asked,
        vec![
            Request::Script,
            Request::LockHash { index: 0 },
            Request::LockHash { index: 1 },
            Request::Payload { group: Group::Inputs, index: 0 },
            Request::Payload { group: Group::Inputs, index: 1 },
            Request::Payload { group: Group::Outputs, index: 0 },
            Request::Payload { group: Group::Outputs, index: 1 },
        ]
    );
}

#[test]
fn machine_stops_at_a_malformed_payload() {
    let tx = Transaction {
        script: descriptor(&[0xAA; 32]),
        inputs: vec![],
        group_inputs: vec![cell(1), Reading::Bytes(vec![0; 10]), cell(3)],
        group_outputs: vec![cell(2)],
    };
    let (verdict, asked) = drive(&tx);
    assert_eq!(verdict, Err(Error::Encoding));
    assert_eq!(asked.len(), 4);
    assert_eq!(asked[3], Request::Payload { group: Group::Inputs, index: 1 });
}

#[test]
fn machine_agrees_with_check() {
    let owner = [0xAA; 32];
    let lists = [
        (vec![hash(0xAA)], vec![], vec![]),
        (vec![hash(0xBB)], vec![cell(100)], vec![cell(150)]),
        (vec![hash(0xBB)], vec![cell(200)], vec![cell(200)]),
        (vec![hash(0xBB)], vec![Reading::Bytes(vec![0; 10])], vec![]),
        (vec![Reading::Failed(Signal::ItemMissing)], vec![], vec![]),
        (vec![], vec![cell(3), cell(4)], vec![cell(7), Reading::Failed(Signal::LengthNotEnough)]),
        (vec![], vec![], vec![]),
    ];
    for (inputs, group_inputs, group_outputs) in lists {
        let tx = Transaction { script: descriptor(&owner), inputs, group_inputs, group_outputs };
        assert_eq!(drive(&tx).0, check(&tx));
    }
}

#[test]
fn step_follows_the_readings() {
    let state = feed(vec![descriptor(&[0xAA; 32]), hash(1), end(), cell(5), cell(6)]);
    assert_eq!(state.request(), Some(Request::Payload { group: Group::Inputs, index: 2 }));
    assert!(matches!(state, State::Inputs { index: 2, sum: 11 }));
    let state = state.step(&end());
    assert!(matches!(state, State::Outputs { index: 0, inputs: 11, sum: 0 }));
    let state = state.step(&cell(11));
    assert!(matches!(state, State::Outputs { index: 1, inputs: 11, sum: 11 }));
    assert_eq!(state.verdict(), None);
    let state = state.step(&end());
    assert_eq!(state.verdict(), Some(Ok(())));
    assert_eq!(state.request(), None);
}

#[test]
fn step_keeps_the_owner_while_it_scans() {
    let state = feed(vec![descriptor(&[1, 2, 3]), hash(1), hash(2)]);
    assert!(matches!(&state, State::Owner { args, index: 2 } if args == &vec![1u8, 2, 3]));
    assert_eq!(state.request(), Some(Request::LockHash { index: 2 }));
}

#[test]
fn step_rejects_on_a_failed_descriptor() {
    let state = State::new().step(&Reading::Failed(Signal::LengthNotEnough));
    assert_eq!(state.verdict(), Some(Err(Error::LengthNotEnough)));
}

#[test]
fn try_step_refuses_a_descriptor_that_is_no_script() {
    assert!(!State::new().accepts(&Reading::Bytes(vec![1, 2, 3])));
    assert!(State::new().try_step(&Reading::Bytes(vec![1, 2, 3])).is_none());
    assert!(State::new().accepts(&descriptor(&[])));
}

#[test]
fn try_step_refuses_a_sum_beyond_128_bits() {
    let state = State::Inputs { index: 1, sum: u128::MAX };
    assert!(state.accepts(&cell(0)));
    assert!(!state.accepts(&cell(1)));
    assert!(state.accepts(&end()));
    assert!(state.accepts(&Reading::Bytes(vec![1])));
    assert!(state.try_step(&cell(1)).is_none());
    let state = State::Outputs { index: 1, inputs: 0, sum: u128::MAX - 5 };
    assert!(state.accepts(&cell(5)));
    assert!(!state.accepts(&cell(6)));
    assert!(matches!(
        state.try_step(&cell(5)),
        Some(State::Outputs { index: 2, inputs: 0, sum: u128::MAX })
    ));
}

#[test]
fn try_step_refuses_an_index_beyond_the_last() {
    let state = State::Owner { args: vec![0xAA; 32], index: usize::MAX };
    assert!(!state.accepts(&hash(1)));
    assert!(state.accepts(&hash(0xAA)));
    assert!(state.accepts(&end()));
    let state = State::Inputs { index: usize::MAX, sum: 0 };
    assert!(!state.accepts(&cell(1)));
    let state = State::Outputs { index: usize::MAX, inputs: 0, sum: 0 };
    assert!(!state.accepts(&cell(1)));
    assert!(state.accepts(&end()));
}

#[test]
fn try_step_refuses_anything_after_the_verdict() {
    let state = State::Done(Ok(()));
    assert!(!state.accepts(&end()));
    assert!(state.try_step(&end()).is_none());
}

#[test]
fn serve_answers_from_the_list_asked_for() {
    let tx = Transaction {
        script: Reading::Failed(Signal::ItemMissing),
        inputs: vec![hash(1)],
        group_inputs: vec![cell(2)],
        group_outputs: vec![cell(3)],
    };
    assert!(matches!(serve(&tx, Request::Script), Reading::Failed(Signal::ItemMissing)));
    assert!(matches!(serve(&tx, Request::LockHash { index: 0 }), Reading::Bytes(b) if b == vec![1; 32]));
    assert!(matches!(
        serve(&tx, Request::Payload { group: Group::Inputs, index: 0 }),
        Reading::Bytes(b) if b == 2u128.to_le_bytes()
    ));
    assert!(matches!(
        serve(&tx, Request::Payload { group: Group::Outputs, index: 0 }),
        Reading::Bytes(b) if b == 3u128.to_le_bytes()
    ));
    assert!(matches!(
        serve(&tx, Request::Payload { group: Group::Outputs, index: 1 }),
        Reading::Failed(Signal::IndexOutOfBound)
    ));
}

//! The payload codec: exact layouts, round trips, and refused payloads.

use authcore::ops::Operation;
use authcore::wire::{
    decode_payload, encode_payload, OP_DEPOSIT, OP_SET_FEE, OP_SET_MESSAGE, OP_TOGGLE_PAUSE,
    OP_WITHDRAW,
};

fn round_trips(op: Operation) -> Operation {
    let bytes = encode_payload(&op);
    decode_payload(&bytes).expect("an encoded payload must decode")
}

#[test]
fn payload_layout_is_byte_stable() {
    let bytes = encode_payload(&Operation::SetFee { fee_bps: 0x0102 });
    assert_eq!(bytes, vec![OP_SET_FEE, 0x02, 0x01]);

    let bytes = encode_payload(&Operation::Withdraw { amount: 0x0102030405060708 });
    assert_eq!(
        bytes,
        vec![OP_WITHDRAW, 0x08, 0x07, 0x06, 0x05, 0x04, 0x03, 0x02, 0x01]
    );

    let bytes = encode_payload(&Operation::SetMessage { content: b"hi".to_vec() });
    assert_eq!(bytes, vec![OP_SET_MESSAGE, b'h', b'i']);

    let bytes = encode_payload(&Operation::TogglePause);
    assert_eq!(bytes, vec![OP_TOGGLE_PAUSE]);
}

#[test]
fn payloads_round_trip() {
    match round_trips(Operation::SetMessage { content: b"hello".to_vec() }) {
        Operation::SetMessage { content } => assert_eq!(content, b"hello".to_vec()),
        other => panic!("wrong operation decoded: {:?}", other),
    }
    match round_trips(Operation::SetMessage { content: vec![] }) {
        Operation::SetMessage { content } => assert_eq!(content, Vec::<u8>::new()),
        other => panic!("wrong operation decoded: {:?}", other),
    }
    match round_trips(Operation::SetFee { fee_bps: 10_000 }) {
        Operation::SetFee { fee_bps } => assert_eq!(fee_bps, 10_000),
        other => panic!("wrong operation decoded: {:?}", other),
    }
    match round_trips(Operation::Withdraw { amount: u64::MAX }) {
        Operation::Withdraw { amount } => assert_eq!(amount, u64::MAX),
        other => panic!("wrong operation decoded: {:?}", other),
    }
    match round_trips(Operation::Deposit { amount: 1 }) {
        Operation::Deposit { amount } => assert_eq!(amount, 1),
        other => panic!("wrong operation decoded: {:?}", other),
    }
    match round_trips(Operation::TogglePause) {
        Operation::TogglePause => {},
        other => panic!("wrong operation decoded: {:?}", other),
    }
}

#[test]
fn malformed_payloads_are_refused_whole() {
    // Empty.
    assert!(decode_payload(&vec![]).is_none());
    // Unknown operation code.
    assert!(decode_payload(&vec![99]).is_none());
    // A length that does not fit the code's layout.
    assert!(decode_payload(&vec![OP_SET_FEE, 1]).is_none());
    assert!(decode_payload(&vec![OP_SET_FEE, 1, 2, 3]).is_none());
    assert!(decode_payload(&vec![OP_WITHDRAW, 1, 2, 3]).is_none());
    assert!(decode_payload(&vec![OP_DEPOSIT]).is_none());
    assert!(decode_payload(&vec![OP_TOGGLE_PAUSE, 0]).is_none());
}

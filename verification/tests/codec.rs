//! Round-trip and decode-failure behaviour of the state-sync codec.

use p2p_codec::common::{Address, Direction, Iteration, IterationStart};
use p2p_codec::error::DecodeError;
use p2p_codec::felt::Felt;
use p2p_codec::proto;
use p2p_codec::state::{ContractDiff, ContractStoredValue, StateDiffsRequest, StateDiffsResponse};

fn felt(last: u8) -> Felt {
    let mut bytes = vec![0u8; 32];
    bytes[31] = last;
    Felt::from_be_bytes(bytes)
}

fn sample_iteration() -> Iteration {
    Iteration {
        start: IterationStart::BlockNumber(42),
        direction: Direction::Forward,
        limit: 100,
        step: 1,
    }
}

fn sample_diff_all_absent() -> ContractDiff {
    ContractDiff {
        address: Address(felt(7)),
        nonce: None,
        class_hash: None,
        is_replaced: None,
        values: Vec::new(),
        domain: 0,
    }
}

fn sample_diff_all_present() -> ContractDiff {
    ContractDiff {
        address: Address(felt(7)),
        nonce: Some(felt(1)),
        class_hash: Some(felt(2)),
        is_replaced: Some(true),
        values: vec![
            ContractStoredValue { key: felt(3), value: felt(4) },
            ContractStoredValue { key: felt(5), value: felt(6) },
        ],
        domain: 9,
    }
}

#[test]
fn felt_wire_round_trip() {
    let f = felt(0xAB);
    let wire = f.clone().to_protobuf();
    assert_eq!(wire.elements[31], 0xAB);
    assert_eq!(Felt::from_protobuf(wire), f);
}

#[test]
fn stored_value_round_trip() {
    let v = ContractStoredValue { key: felt(1), value: felt(2) };
    let wire = v.clone().to_protobuf();
    let back = ContractStoredValue::try_from_protobuf(wire, "values").unwrap();
    assert_eq!(back, v);
}

#[test]
fn stored_value_missing_key_fails() {
    let wire = proto::ContractStoredValue { key: None, value: Some(felt(2).to_protobuf()) };
    let err = ContractStoredValue::try_from_protobuf(wire, "values").unwrap_err();
    assert_eq!(err, DecodeError::MissingField("key".to_string()));
}

#[test]
fn stored_value_missing_value_fails() {
    let wire = proto::ContractStoredValue { key: Some(felt(1).to_protobuf()), value: None };
    let err = ContractStoredValue::try_from_protobuf(wire, "values").unwrap_err();
    assert_eq!(err, DecodeError::MissingField("value".to_string()));
}

#[test]
fn contract_diff_round_trip_all_optionals_absent() {
    let d = sample_diff_all_absent();
    let wire = d.clone().to_protobuf();
    let back = ContractDiff::try_from_protobuf(wire, "state_diff_message").unwrap();
    assert_eq!(back, d);
}

#[test]
fn contract_diff_round_trip_all_optionals_present() {
    let d = sample_diff_all_present();
    let wire = d.clone().to_protobuf();
    let back = ContractDiff::try_from_protobuf(wire, "state_diff_message").unwrap();
    assert_eq!(back, d);
}

#[test]
fn optional_nonce_absent_stays_absent() {
    let d = sample_diff_all_absent();
    let wire = d.clone().to_protobuf();
    assert!(wire.nonce.is_none());
    let back = ContractDiff::try_from_protobuf(wire, "state_diff_message").unwrap();
    assert_eq!(back.nonce, None);
}

#[test]
fn optional_nonce_zero_stays_present() {
    let mut d = sample_diff_all_absent();
    d.nonce = Some(felt(0));
    let wire = d.clone().to_protobuf();
    assert!(wire.nonce.is_some());
    let back = ContractDiff::try_from_protobuf(wire, "state_diff_message").unwrap();
    assert_eq!(back.nonce, Some(felt(0)));
    assert_ne!(back.nonce, None);
}

#[test]
fn contract_diff_missing_address_fails() {
    let mut wire = sample_diff_all_present().to_protobuf();
    wire.address = None;
    let err = ContractDiff::try_from_protobuf(wire, "state_diff_message").unwrap_err();
    assert_eq!(err, DecodeError::MissingField("address".to_string()));
}

#[test]
fn contract_diff_bad_element_aborts_sequence() {
    let mut wire = sample_diff_all_present().to_protobuf();
    wire.values[1].value = None;
    let err = ContractDiff::try_from_protobuf(wire, "state_diff_message").unwrap_err();
    assert_eq!(err, DecodeError::MissingField("value".to_string()));
}

#[test]
fn request_round_trip() {
    let rq = StateDiffsRequest { iteration: sample_iteration() };
    let wire = rq.clone().to_protobuf();
    let back = StateDiffsRequest::try_from_protobuf(wire, "request").unwrap();
    assert_eq!(back, rq);
}

#[test]
fn request_header_start_round_trip() {
    let rq = StateDiffsRequest {
        iteration: Iteration {
            start: IterationStart::Header(p2p_codec::common::Hash(felt(0xCD))),
            direction: Direction::Backward,
            limit: 7,
            step: 2,
        },
    };
    let wire = rq.clone().to_protobuf();
    let back = StateDiffsRequest::try_from_protobuf(wire, "request").unwrap();
    assert_eq!(back, rq);
}

#[test]
fn request_missing_iteration_fails() {
    let wire = proto::StateDiffsRequest { iteration: None };
    let err = StateDiffsRequest::try_from_protobuf(wire, "request").unwrap_err();
    assert_eq!(err, DecodeError::MissingField("iteration".to_string()));
}

#[test]
fn iteration_missing_start_fails() {
    let wire = proto::Iteration { start: None, direction: 0, limit: 1, step: 1 };
    let err = Iteration::try_from_protobuf(wire, "iteration").unwrap_err();
    assert_eq!(err, DecodeError::MissingField("start".to_string()));
}

#[test]
fn iteration_unknown_direction_fails() {
    let wire = proto::Iteration {
        start: Some(proto::IterationStart::BlockNumber(3)),
        direction: 5,
        limit: 1,
        step: 1,
    };
    let err = Iteration::try_from_protobuf(wire, "iteration").unwrap_err();
    assert_eq!(err, DecodeError::UnknownVariant);
}

#[test]
fn response_round_trip_contract_diff() {
    let r = StateDiffsResponse::ContractDiff(sample_diff_all_present());
    let wire = r.clone().to_protobuf();
    let back = StateDiffsResponse::try_from_protobuf(wire, "state_diff_message").unwrap();
    assert_eq!(back, r);
}

#[test]
fn response_round_trip_fin() {
    let r = StateDiffsResponse::Fin;
    let wire = r.clone().to_protobuf();
    assert!(matches!(
        wire.state_diff_message,
        Some(proto::StateDiffMessage::Fin)
    ));
    let back = StateDiffsResponse::try_from_protobuf(wire, "state_diff_message").unwrap();
    assert_eq!(back, StateDiffsResponse::Fin);
}

#[test]
fn response_unset_oneof_is_missing_field() {
    let wire = proto::StateDiffsResponse { state_diff_message: None };
    let err = StateDiffsResponse::try_from_protobuf(wire, "state_diff_message").unwrap_err();
    assert_eq!(
        err,
        DecodeError::MissingField("state_diff_message".to_string())
    );
}

#[test]
fn response_unknown_case_is_unknown_variant() {
    let wire = proto::StateDiffsResponse {
        state_diff_message: Some(proto::StateDiffMessage::Unrecognized(3)),
    };
    let err = StateDiffsResponse::try_from_protobuf(wire, "state_diff_message").unwrap_err();
    assert_eq!(err, DecodeError::UnknownVariant);
}

#[test]
fn response_default_is_fin() {
    assert_eq!(StateDiffsResponse::default(), StateDiffsResponse::Fin);
}

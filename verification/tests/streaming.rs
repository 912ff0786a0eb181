//! The streaming exchange: per-message codec plus the consumer-side
//! stream-order obligation.

use p2p_codec::common::Address;
use p2p_codec::felt::Felt;
use p2p_codec::state::{ContractDiff, StateDiffsResponse};
use p2p_codec::stream::{stream_is_well_formed, StreamState};

fn felt(last: u8) -> Felt {
    let mut bytes = vec![0u8; 32];
    bytes[31] = last;
    Felt::from_be_bytes(bytes)
}

fn diff(last: u8) -> ContractDiff {
    ContractDiff {
        address: Address(felt(last)),
        nonce: None,
        class_hash: None,
        is_replaced: None,
        values: Vec::new(),
        domain: 0,
    }
}

#[test]
fn stream_of_two_diffs_and_fin_round_trips() {
    let msgs = vec![
        StateDiffsResponse::ContractDiff(diff(1)),
        StateDiffsResponse::ContractDiff(diff(2)),
        StateDiffsResponse::Fin,
    ];
    let wire: Vec<_> = msgs.iter().map(|m| m.clone().to_protobuf()).collect();
    assert_eq!(wire.len(), 3);
    let back: Vec<_> = wire
        .into_iter()
        .map(|w| StateDiffsResponse::try_from_protobuf(w, "state_diff_message").unwrap())
        .collect();
    assert_eq!(back, msgs);
    assert!(stream_is_well_formed(&msgs));
}

#[test]
fn stream_with_second_fin_is_flagged() {
    // The codec itself is stateless and accepts each message on its own;
    // the stream-order check flags the sequence.
    let msgs = vec![
        StateDiffsResponse::ContractDiff(diff(1)),
        StateDiffsResponse::Fin,
        StateDiffsResponse::Fin,
    ];
    for m in &msgs {
        let w = m.clone().to_protobuf();
        assert!(StateDiffsResponse::try_from_protobuf(w, "state_diff_message").is_ok());
    }
    assert!(!stream_is_well_formed(&msgs));
}

#[test]
fn stream_with_diff_after_fin_is_flagged() {
    let msgs = vec![
        StateDiffsResponse::ContractDiff(diff(1)),
        StateDiffsResponse::Fin,
        StateDiffsResponse::ContractDiff(diff(2)),
    ];
    for m in &msgs {
        let w = m.clone().to_protobuf();
        assert!(StateDiffsResponse::try_from_protobuf(w, "state_diff_message").is_ok());
    }
    assert!(!stream_is_well_formed(&msgs));
}

#[test]
fn empty_stream_is_not_well_formed() {
    let msgs: Vec<StateDiffsResponse> = Vec::new();
    assert!(!stream_is_well_formed(&msgs));
}

#[test]
fn stream_without_terminator_is_not_well_formed() {
    let msgs = vec![
        StateDiffsResponse::ContractDiff(diff(1)),
        StateDiffsResponse::ContractDiff(diff(2)),
    ];
    assert!(!stream_is_well_formed(&msgs));
}

#[test]
fn consumer_stops_at_fin_and_flags_later_messages() {
    let st = StreamState::Streaming;
    let (st, violated) = st.observe(&StateDiffsResponse::ContractDiff(diff(1)));
    assert_eq!(st, StreamState::Streaming);
    assert!(!violated);
    let (st, violated) = st.observe(&StateDiffsResponse::Fin);
    assert_eq!(st, StreamState::Done);
    assert!(!violated);
    let (st, violated) = st.observe(&StateDiffsResponse::ContractDiff(diff(2)));
    assert_eq!(st, StreamState::Done);
    assert!(violated);
    let (_, violated) = st.observe(&StateDiffsResponse::Fin);
    assert!(violated);
}

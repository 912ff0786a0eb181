//! Receipt normalization: uniformity across kinds, message-list handling,
//! and numeric widening.

use p2p_codec::client::Receipt;
use p2p_codec::common::EthereumAddress;
use p2p_codec::error::DecodeError;
use p2p_codec::felt::Felt;
use p2p_codec::receipt;

fn felt(last: u8) -> Felt {
    let mut bytes = vec![0u8; 32];
    bytes[31] = last;
    Felt::from_be_bytes(bytes)
}

fn eth_address(last: u8) -> EthereumAddress {
    let mut bytes = vec![0u8; 20];
    bytes[19] = last;
    EthereumAddress::from_bytes(bytes)
}

fn sample_common() -> receipt::ReceiptCommon {
    receipt::ReceiptCommon {
        transaction_hash: p2p_codec::common::Hash(felt(0x11)),
        actual_fee: felt(0x22),
        messages_sent: vec![receipt::MessageToL1 {
            from_address: felt(0x33),
            payload: vec![felt(0x44), felt(0x55)],
            to_address: eth_address(0x66),
        }],
        execution_resources: receipt::ExecutionResources {
            builtins: receipt::BuiltinCounter {
                output: 1,
                pedersen: 2,
                range_check: 3,
                ecdsa: 4,
                bitwise: 5,
                ec_op: 6,
                keccak: 7,
                poseidon: 8,
                segment_arena: 9,
            },
            steps: 1000,
            memory_holes: 17,
        },
        revert_reason: String::new(),
    }
}

fn five_kinds(common: receipt::ReceiptCommon) -> Vec<receipt::Receipt> {
    vec![
        receipt::Receipt::Invoke(receipt::InvokeTransactionReceipt { common: common.clone() }),
        receipt::Receipt::Declare(receipt::DeclareTransactionReceipt { common: common.clone() }),
        receipt::Receipt::L1Handler(receipt::L1HandlerTransactionReceipt {
            common: common.clone(),
            msg_hash: p2p_codec::common::Hash(felt(0x77)),
        }),
        receipt::Receipt::Deploy(receipt::DeployTransactionReceipt {
            common: common.clone(),
            contract_address: felt(0x88),
        }),
        receipt::Receipt::DeployAccount(receipt::DeployAccountTransactionReceipt {
            common,
            contract_address: felt(0x99),
        }),
    ]
}

#[test]
fn normalization_is_uniform_across_the_five_kinds() {
    let receipts: Vec<Receipt> = five_kinds(sample_common())
        .into_iter()
        .map(|p| Receipt::try_from(p).unwrap())
        .collect();
    assert_eq!(receipts.len(), 5);
    for r in &receipts[1..] {
        assert_eq!(r, &receipts[0]);
    }
    let r = &receipts[0];
    assert_eq!(r.transaction_hash.0, felt(0x11));
    assert_eq!(r.actual_fee.0, felt(0x22));
    assert_eq!(r.l2_to_l1_messages.len(), 1);
    assert_eq!(r.l2_to_l1_messages[0].from_address.0, felt(0x33));
    assert_eq!(r.l2_to_l1_messages[0].payload.len(), 2);
    assert_eq!(r.l2_to_l1_messages[0].payload[0].0, felt(0x44));
    assert_eq!(r.l2_to_l1_messages[0].payload[1].0, felt(0x55));
    assert_eq!(r.l2_to_l1_messages[0].to_address, eth_address(0x66));
    assert_eq!(r.revert_error, "");
}

#[test]
fn counters_are_widened_field_by_field() {
    let p = receipt::Receipt::Invoke(receipt::InvokeTransactionReceipt {
        common: sample_common(),
    });
    let r = Receipt::try_from(p).unwrap();
    let b = &r.execution_resources.builtin_instance_counter;
    assert_eq!(b.output_builtin, 1);
    assert_eq!(b.pedersen_builtin, 2);
    assert_eq!(b.range_check_builtin, 3);
    assert_eq!(b.ecdsa_builtin, 4);
    assert_eq!(b.bitwise_builtin, 5);
    assert_eq!(b.ec_op_builtin, 6);
    assert_eq!(b.keccak_builtin, 7);
    assert_eq!(b.poseidon_builtin, 8);
    assert_eq!(b.segment_arena_builtin, 9);
    assert_eq!(r.execution_resources.n_steps, 1000);
    assert_eq!(r.execution_resources.n_memory_holes, 17);
}

#[test]
fn counter_at_wire_maximum_widens_without_truncation() {
    let mut common = sample_common();
    common.execution_resources.builtins.range_check = u32::MAX;
    common.execution_resources.steps = u32::MAX;
    common.execution_resources.memory_holes = u32::MAX;
    let r = Receipt::try_from(receipt::Receipt::Declare(receipt::DeclareTransactionReceipt {
        common,
    }))
    .unwrap();
    assert_eq!(
        r.execution_resources.builtin_instance_counter.range_check_builtin,
        u32::MAX as u64
    );
    assert_eq!(r.execution_resources.n_steps, u32::MAX as u64);
    assert_eq!(r.execution_resources.n_memory_holes, u32::MAX as u64);
}

#[test]
fn empty_message_list_normalizes_to_empty_list() {
    let mut common = sample_common();
    common.messages_sent = Vec::new();
    let r = Receipt::try_from(receipt::Receipt::Deploy(receipt::DeployTransactionReceipt {
        common,
        contract_address: felt(1),
    }))
    .unwrap();
    assert_eq!(r.l2_to_l1_messages, Vec::new());
}

#[test]
fn revert_reason_is_carried_verbatim() {
    let mut common = sample_common();
    common.revert_reason = "out of gas".to_string();
    let r = Receipt::try_from(receipt::Receipt::Invoke(receipt::InvokeTransactionReceipt {
        common,
    }))
    .unwrap();
    assert_eq!(r.revert_error, "out of gas");
}

#[test]
fn unrecognized_receipt_shape_is_a_mismatch() {
    let err = Receipt::try_from(receipt::Receipt::Unrecognized(12)).unwrap_err();
    assert_eq!(err, DecodeError::VariantShapeMismatch);
}

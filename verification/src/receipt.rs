//! Wire-level transaction receipt shapes.
//!
//! Five receipt kinds — one per transaction kind — share one common payload
//! substructure; the kind-specific extras ride alongside it. The `client`
//! module collapses these shapes into the single normalized receipt handed to
//! downstream consumers.

use crate::common::EthereumAddress;
use crate::felt::Felt;
use vstd::prelude::*;

verus! {

/// One outbound cross-layer message attached to a receipt: source address,
/// payload of field elements, settlement-layer destination.
#[derive(Debug, Clone, PartialEq, Eq)]
pub struct MessageToL1 {
    pub from_address: Felt,
    pub payload: Vec<Felt>,
    pub to_address: EthereumAddress,
}

/// Model of a [`MessageToL1`].
pub struct MessageToL1View {
    pub from_address: Seq<u8>,
    pub payload: Seq<Seq<u8>>,
    pub to_address: Seq<u8>,
}

impl View for MessageToL1 {
    type V = MessageToL1View;

    open spec fn view(&self) -> MessageToL1View {
        MessageToL1View {
            from_address: self.from_address@,
            payload: self.payload.deep_view(),
            to_address: self.to_address@,
        }
    }
}

impl DeepView for MessageToL1 {
    type V = MessageToL1View;

    open spec fn deep_view(&self) -> MessageToL1View {
        self@
    }
}

impl MessageToL1 {
    pub open spec fn wf(&self) -> bool {
        &&& self.from_address.wf()
        &&& (forall|i: int| 0 <= i < self.payload@.len() ==> self.payload@[i].wf())
        &&& self.to_address.wf()
    }
}

/// Per-builtin execution cost counters, at the wire's integer width.
#[derive(Debug, Clone, Copy, PartialEq, Eq, Structural)]
pub struct BuiltinCounter {
    pub output: u32,
    pub pedersen: u32,
    pub range_check: u32,
    pub ecdsa: u32,
    pub bitwise: u32,
    pub ec_op: u32,
    pub keccak: u32,
    pub poseidon: u32,
    pub segment_arena: u32,
}

/// Execution resource counters attached to a receipt, at the wire's integer
/// width.
#[derive(Debug, Clone, Copy, PartialEq, Eq, Structural)]
pub struct ExecutionResources {
    pub builtins: BuiltinCounter,
    pub steps: u32,
    pub memory_holes: u32,
}

/// The payload substructure shared by every receipt kind. The revert reason
/// is carried verbatim; by convention an empty string means "not reverted".
#[derive(Debug, Clone, PartialEq, Eq)]
pub struct ReceiptCommon {
    pub transaction_hash: crate::common::Hash,
    pub actual_fee: Felt,
    pub messages_sent: Vec<MessageToL1>,
    pub execution_resources: ExecutionResources,
    pub revert_reason: String,
}

/// Model of a [`ReceiptCommon`]; the counters are plain integers and stand
/// for themselves.
pub struct ReceiptCommonView {
    pub transaction_hash: Seq<u8>,
    pub actual_fee: Seq<u8>,
    pub messages_sent: Seq<MessageToL1View>,
    pub execution_resources: ExecutionResources,
    pub revert_reason: Seq<char>,
}

impl View for ReceiptCommon {
    type V = ReceiptCommonView;

    open spec fn view(&self) -> ReceiptCommonView {
        ReceiptCommonView {
            transaction_hash: self.transaction_hash@,
            actual_fee: self.actual_fee@,
            messages_sent: self.messages_sent.deep_view(),
            execution_resources: self.execution_resources,
            revert_reason: self.revert_reason@,
        }
    }
}

impl DeepView for ReceiptCommon {
    type V = ReceiptCommonView;

    open spec fn deep_view(&self) -> ReceiptCommonView {
        self@
    }
}

impl ReceiptCommon {
    pub open spec fn wf(&self) -> bool {
        &&& self.transaction_hash.wf()
        &&& self.actual_fee.wf()
        &&& (forall|i: int| 0 <= i < self.messages_sent@.len() ==> self.messages_sent@[i].wf())
    }
}

/// Receipt of an invoke transaction.
#[derive(Debug, Clone, PartialEq, Eq)]
pub struct InvokeTransactionReceipt {
    pub common: ReceiptCommon,
}

/// Receipt of a declare transaction.
#[derive(Debug, Clone, PartialEq, Eq)]
pub struct DeclareTransactionReceipt {
    pub common: ReceiptCommon,
}

/// Receipt of a settlement-layer handler transaction; carries the handled
/// message's hash besides the common payload.
#[derive(Debug, Clone, PartialEq, Eq)]
pub struct L1HandlerTransactionReceipt {
    pub common: ReceiptCommon,
    pub msg_hash: crate::common::Hash,
}

/// Receipt of a deploy transaction; carries the deployed contract's address
/// besides the common payload.
#[derive(Debug, Clone, PartialEq, Eq)]
pub struct DeployTransactionReceipt {
    pub common: ReceiptCommon,
    pub contract_address: Felt,
}

/// Receipt of a deploy-account transaction; carries the deployed account's
/// address besides the common payload.
#[derive(Debug, Clone, PartialEq, Eq)]
pub struct DeployAccountTransactionReceipt {
    pub common: ReceiptCommon,
    pub contract_address: Felt,
}

/// The wire-level receipt union: one case per transaction kind, plus the
/// representation of a union case outside the recognized set, kept with its
/// raw tag.
#[derive(Debug, Clone, PartialEq, Eq)]
pub enum Receipt {
    Invoke(InvokeTransactionReceipt),
    Declare(DeclareTransactionReceipt),
    L1Handler(L1HandlerTransactionReceipt),
    Deploy(DeployTransactionReceipt),
    DeployAccount(DeployAccountTransactionReceipt),
    Unrecognized(u32),
}

/// Model of a wire [`Receipt`].
pub enum ReceiptView {
    Invoke { common: ReceiptCommonView },
    Declare { common: ReceiptCommonView },
    L1Handler { common: ReceiptCommonView, msg_hash: Seq<u8> },
    Deploy { common: ReceiptCommonView, contract_address: Seq<u8> },
    DeployAccount { common: ReceiptCommonView, contract_address: Seq<u8> },
    Unrecognized { tag: u32 },
}

impl View for Receipt {
    type V = ReceiptView;

    open spec fn view(&self) -> ReceiptView {
        match self {
            Receipt::Invoke(r) => ReceiptView::Invoke { common: r.common@ },
            Receipt::Declare(r) => ReceiptView::Declare { common: r.common@ },
            Receipt::L1Handler(r) => ReceiptView::L1Handler {
                common: r.common@,
                msg_hash: r.msg_hash@,
            },
            Receipt::Deploy(r) => ReceiptView::Deploy {
                common: r.common@,
                contract_address: r.contract_address@,
            },
            Receipt::DeployAccount(r) => ReceiptView::DeployAccount {
                common: r.common@,
                contract_address: r.contract_address@,
            },
            Receipt::Unrecognized(tag) => ReceiptView::Unrecognized { tag: *tag },
        }
    }
}

impl DeepView for Receipt {
    type V = ReceiptView;

    open spec fn deep_view(&self) -> ReceiptView {
        self@
    }
}

/// The common payload of a recognized wire receipt, whatever kind tag wraps
/// it; an out-of-schema case has none.
pub open spec fn spec_common_of(r: ReceiptView) -> Option<ReceiptCommonView> {
    match r {
        ReceiptView::Invoke { common } => Some(common),
        ReceiptView::Declare { common } => Some(common),
        ReceiptView::L1Handler { common, .. } => Some(common),
        ReceiptView::Deploy { common, .. } => Some(common),
        ReceiptView::DeployAccount { common, .. } => Some(common),
        ReceiptView::Unrecognized { .. } => None,
    }
}

impl Receipt {
    pub open spec fn wf(&self) -> bool {
        match self {
            Receipt::Invoke(r) => r.common.wf(),
            Receipt::Declare(r) => r.common.wf(),
            Receipt::L1Handler(r) => r.common.wf() && r.msg_hash.wf(),
            Receipt::Deploy(r) => r.common.wf() && r.contract_address.wf(),
            Receipt::DeployAccount(r) => r.common.wf() && r.contract_address.wf(),
            Receipt::Unrecognized(_) => true,
        }
    }
}

} // verus!

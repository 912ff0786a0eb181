//! The normalized, transaction-kind-agnostic receipt handed to downstream
//! consumers, and the normalization that collapses the five wire-level
//! receipt shapes into it.
//!
//! Normalization is a deliberate lossy projection: it keeps the shared
//! payload — transaction hash, fee, resource counters, outbound messages,
//! revert reason — and discards kind-specific extras. Counters are widened
//! from the wire's integer width to the domain's, so no value is ever
//! truncated.

use crate::common::EthereumAddress;
use crate::error::{result_view, DecodeError, DecodeErrorView};
use crate::felt::Felt;
use crate::receipt;
use crate::receipt::spec_common_of;
use vstd::prelude::*;

verus! {

/// A transaction hash in the normalized receipt.
#[derive(Debug, Clone, PartialEq, Eq)]
pub struct TransactionHash(pub Felt);

impl View for TransactionHash {
    type V = Seq<u8>;

    open spec fn view(&self) -> Seq<u8> {
        self.0@
    }
}

impl DeepView for TransactionHash {
    type V = Seq<u8>;

    open spec fn deep_view(&self) -> Seq<u8> {
        self.0@
    }
}

/// The fee actually paid, as a field element.
#[derive(Debug, Clone, PartialEq, Eq)]
pub struct Fee(pub Felt);

impl View for Fee {
    type V = Seq<u8>;

    open spec fn view(&self) -> Seq<u8> {
        self.0@
    }
}

impl DeepView for Fee {
    type V = Seq<u8>;

    open spec fn deep_view(&self) -> Seq<u8> {
        self.0@
    }
}

/// The source contract address of an outbound message.
#[derive(Debug, Clone, PartialEq, Eq)]
pub struct ContractAddress(pub Felt);

impl View for ContractAddress {
    type V = Seq<u8>;

    open spec fn view(&self) -> Seq<u8> {
        self.0@
    }
}

impl DeepView for ContractAddress {
    type V = Seq<u8>;

    open spec fn deep_view(&self) -> Seq<u8> {
        self.0@
    }
}

/// One element of an outbound message's payload.
#[derive(Debug, Clone, PartialEq, Eq)]
pub struct L2ToL1MessagePayloadElem(pub Felt);

impl View for L2ToL1MessagePayloadElem {
    type V = Seq<u8>;

    open spec fn view(&self) -> Seq<u8> {
        self.0@
    }
}

impl DeepView for L2ToL1MessagePayloadElem {
    type V = Seq<u8>;

    open spec fn deep_view(&self) -> Seq<u8> {
        self.0@
    }
}

/// One outbound cross-layer message in the normalized receipt.
#[derive(Debug, Clone, PartialEq, Eq)]
pub struct L2ToL1Message {
    pub from_address: ContractAddress,
    pub payload: Vec<L2ToL1MessagePayloadElem>,
    pub to_address: EthereumAddress,
}

/// Model of an [`L2ToL1Message`].
pub struct L2ToL1MessageView {
    pub from_address: Seq<u8>,
    pub payload: Seq<Seq<u8>>,
    pub to_address: Seq<u8>,
}

impl View for L2ToL1Message {
    type V = L2ToL1MessageView;

    open spec fn view(&self) -> L2ToL1MessageView {
        L2ToL1MessageView {
            from_address: self.from_address@,
            payload: self.payload.deep_view(),
            to_address: self.to_address@,
        }
    }
}

impl DeepView for L2ToL1Message {
    type V = L2ToL1MessageView;

    open spec fn deep_view(&self) -> L2ToL1MessageView {
        self@
    }
}

impl L2ToL1Message {
    pub open spec fn wf(&self) -> bool {
        &&& self.from_address.0.wf()
        &&& (forall|i: int| 0 <= i < self.payload@.len() ==> self.payload@[i].0.wf())
        &&& self.to_address.wf()
    }
}

/// Per-builtin execution cost counters at the domain's integer width.
#[derive(Debug, Clone, Copy, PartialEq, Eq, Structural)]
pub struct BuiltinCounters {
    pub output_builtin: u64,
    pub pedersen_builtin: u64,
    pub range_check_builtin: u64,
    pub ecdsa_builtin: u64,
    pub bitwise_builtin: u64,
    pub ec_op_builtin: u64,
    pub keccak_builtin: u64,
    pub poseidon_builtin: u64,
    pub segment_arena_builtin: u64,
}

/// Execution resource counters at the domain's integer width.
#[derive(Debug, Clone, Copy, PartialEq, Eq, Structural)]
pub struct ExecutionResources {
    pub builtin_instance_counter: BuiltinCounters,
    pub n_steps: u64,
    pub n_memory_holes: u64,
}

/// A simplified, kind-agnostic transaction receipt. Kind-specific payload
/// (event lists, detailed execution status) present in the wire form is
/// deliberately discarded. An empty revert string means "not reverted" —
/// there is no separate flag.
#[derive(Debug, Clone, PartialEq, Eq)]
pub struct Receipt {
    pub transaction_hash: TransactionHash,
    pub actual_fee: Fee,
    pub execution_resources: ExecutionResources,
    pub l2_to_l1_messages: Vec<L2ToL1Message>,
    pub revert_error: String,
}

/// Model of a normalized [`Receipt`].
pub struct ReceiptView {
    pub transaction_hash: Seq<u8>,
    pub actual_fee: Seq<u8>,
    pub execution_resources: ExecutionResources,
    pub l2_to_l1_messages: Seq<L2ToL1MessageView>,
    pub revert_error: Seq<char>,
}

impl View for Receipt {
    type V = ReceiptView;

    open spec fn view(&self) -> ReceiptView {
        ReceiptView {
            transaction_hash: self.transaction_hash@,
            actual_fee: self.actual_fee@,
            execution_resources: self.execution_resources,
            l2_to_l1_messages: self.l2_to_l1_messages.deep_view(),
            revert_error: self.revert_error@,
        }
    }
}

impl DeepView for Receipt {
    type V = ReceiptView;

    open spec fn deep_view(&self) -> ReceiptView {
        self@
    }
}

impl Receipt {
    pub open spec fn wf(&self) -> bool {
        &&& self.transaction_hash.0.wf()
        &&& self.actual_fee.0.wf()
        &&& (forall|i: int|
            0 <= i < self.l2_to_l1_messages@.len() ==> self.l2_to_l1_messages@[i].wf())
    }
}

/// Widening of the per-builtin counters, field by field by name; a `u32`
/// always fits a `u64`, so every count survives exactly.
pub open spec fn spec_widen_counters(b: receipt::BuiltinCounter) -> BuiltinCounters {
    BuiltinCounters {
        output_builtin: b.output as u64,
        pedersen_builtin: b.pedersen as u64,
        range_check_builtin: b.range_check as u64,
        ecdsa_builtin: b.ecdsa as u64,
        bitwise_builtin: b.bitwise as u64,
        ec_op_builtin: b.ec_op as u64,
        keccak_builtin: b.keccak as u64,
        poseidon_builtin: b.poseidon as u64,
        segment_arena_builtin: b.segment_arena as u64,
    }
}

/// Widening of the execution resource counters to the domain width.
pub open spec fn spec_widen_resources(r: receipt::ExecutionResources) -> ExecutionResources {
    ExecutionResources {
        builtin_instance_counter: spec_widen_counters(r.builtins),
        n_steps: r.steps as u64,
        n_memory_holes: r.memory_holes as u64,
    }
}

/// What normalizing one outbound message yields: the (source, payload,
/// destination) triple, carried verbatim.
pub open spec fn spec_message_from_wire(m: receipt::MessageToL1View) -> L2ToL1MessageView {
    L2ToL1MessageView {
        from_address: m.from_address,
        payload: m.payload,
        to_address: m.to_address,
    }
}

/// What normalizing the shared payload yields: every field of the normalized
/// receipt is a function of the common substructure alone.
pub open spec fn spec_receipt_from_common(c: receipt::ReceiptCommonView) -> ReceiptView {
    ReceiptView {
        transaction_hash: c.transaction_hash,
        actual_fee: c.actual_fee,
        execution_resources: spec_widen_resources(c.execution_resources),
        l2_to_l1_messages: c.messages_sent.map_values(
            |m: receipt::MessageToL1View| spec_message_from_wire(m),
        ),
        revert_error: c.revert_reason,
    }
}

/// What normalizing a wire receipt yields: the common payload of any
/// recognized kind, normalized; a union shape outside the recognized set is
/// a `VariantShapeMismatch` error, never a panic.
pub open spec fn spec_receipt_try_from(p: receipt::ReceiptView) -> Result<
    ReceiptView,
    DecodeErrorView,
> {
    match spec_common_of(p) {
        Some(c) => Ok(spec_receipt_from_common(c)),
        None => Err(DecodeErrorView::VariantShapeMismatch),
    }
}

/// Rewraps a message payload element by element, preserving order.
fn payload_from_wire(input: Vec<Felt>) -> (r: Vec<L2ToL1MessagePayloadElem>)
    requires
        forall|i: int| 0 <= i < input@.len() ==> input@[i].wf(),
    ensures
        r.deep_view() == input.deep_view(),
        forall|i: int| 0 <= i < r@.len() ==> r@[i].0.wf(),
{
    let ghost orig = input.deep_view();
    let mut rest = input;
    let mut out: Vec<L2ToL1MessagePayloadElem> = Vec::new();
    proof {
        assert(out.deep_view() =~= orig.take(0));
        assert(rest.deep_view() =~= orig.skip(0));
    }
    while rest.len() > 0
        invariant
            orig == input.deep_view(),
            out@.len() + rest@.len() == orig.len(),
            rest.deep_view() == orig.skip(out@.len() as int),
            out.deep_view() == orig.take(out@.len() as int),
            forall|i: int| 0 <= i < rest@.len() ==> rest@[i].wf(),
            forall|i: int| 0 <= i < out@.len() ==> out@[i].0.wf(),
        decreases rest@.len(),
    {
        let ghost k = out@.len() as int;
        let ghost pre_out = out.deep_view();
        let ghost pre_rest = rest.deep_view();
        let ghost pre_exec = rest@;
        let f = rest.remove(0);
        proof {
            assert(f.deep_view() == pre_rest[0]);
            assert(pre_rest[0] == orig[k]);
            assert forall|i: int| 0 <= i < rest@.len() implies rest.deep_view()[i] == orig.skip(
                k + 1,
            )[i] by {
                assert(rest@[i] == pre_exec[i + 1]);
                assert(pre_rest[i + 1] == pre_exec[i + 1].deep_view());
                assert(pre_rest[i + 1] == orig.skip(k)[i + 1]);
            }
            assert(rest.deep_view() =~= orig.skip(k + 1));
        }
        out.push(L2ToL1MessagePayloadElem(f));
        proof {
            assert(out.deep_view() =~= orig.take(k + 1));
        }
    }
    proof {
        assert(orig.take(out@.len() as int) =~= orig);
    }
    out
}

/// Normalizes one outbound message.
fn message_from_wire(m: receipt::MessageToL1) -> (r: L2ToL1Message)
    requires
        m.wf(),
    ensures
        r@ == spec_message_from_wire(m@),
        r.wf(),
{
    let receipt::MessageToL1 { from_address, payload, to_address } = m;
    L2ToL1Message {
        from_address: ContractAddress(from_address),
        payload: payload_from_wire(payload),
        to_address,
    }
}

/// Normalizes an outbound message list element by element, preserving order;
/// an empty list stays an empty list.
fn messages_from_wire(input: Vec<receipt::MessageToL1>) -> (r: Vec<L2ToL1Message>)
    requires
        forall|i: int| 0 <= i < input@.len() ==> input@[i].wf(),
    ensures
        r.deep_view() == input.deep_view().map_values(
            |m: receipt::MessageToL1View| spec_message_from_wire(m),
        ),
        forall|i: int| 0 <= i < r@.len() ==> r@[i].wf(),
{
    let ghost orig = input.deep_view();
    let ghost f = |m: receipt::MessageToL1View| spec_message_from_wire(m);
    let mut rest = input;
    let mut out: Vec<L2ToL1Message> = Vec::new();
    proof {
        assert(out.deep_view() =~= orig.take(0).map_values(f));
        assert(rest.deep_view() =~= orig.skip(0));
    }
    while rest.len() > 0
        invariant
            orig == input.deep_view(),
            f == (|m: receipt::MessageToL1View| spec_message_from_wire(m)),
            out@.len() + rest@.len() == orig.len(),
            rest.deep_view() == orig.skip(out@.len() as int),
            out.deep_view() == orig.take(out@.len() as int).map_values(f),
            forall|i: int| 0 <= i < rest@.len() ==> rest@[i].wf(),
            forall|i: int| 0 <= i < out@.len() ==> out@[i].wf(),
        decreases rest@.len(),
    {
        let ghost k = out@.len() as int;
        let ghost pre_out = out.deep_view();
        let ghost pre_rest = rest.deep_view();
        let ghost pre_exec = rest@;
        let m = rest.remove(0);
        proof {
            assert(m.deep_view() == pre_rest[0]);
            assert(pre_rest[0] == orig[k]);
            assert forall|i: int| 0 <= i < rest@.len() implies rest.deep_view()[i] == orig.skip(
                k + 1,
            )[i] by {
                assert(rest@[i] == pre_exec[i + 1]);
                assert(pre_rest[i + 1] == pre_exec[i + 1].deep_view());
                assert(pre_rest[i + 1] == orig.skip(k)[i + 1]);
            }
            assert(rest.deep_view() =~= orig.skip(k + 1));
        }
        let converted = message_from_wire(m);
        out.push(converted);
        proof {
            assert(orig.take(k + 1) =~= orig.take(k).push(orig[k]));
            assert(orig.take(k + 1).map_values(f) =~= orig.take(k).map_values(f).push(f(orig[k])));
            assert(out.deep_view() =~= pre_out.push(converted@));
        }
    }
    proof {
        assert(orig.take(out@.len() as int) =~= orig);
    }
    out
}

/// Normalizes the shared payload into the single receipt shape.
fn receipt_from_common(common: receipt::ReceiptCommon) -> (r: Receipt)
    requires
        common.wf(),
    ensures
        r@ == spec_receipt_from_common(common@),
        r.wf(),
{
    let receipt::ReceiptCommon {
        transaction_hash,
        actual_fee,
        messages_sent,
        execution_resources,
        revert_reason,
    } = common;
    Receipt {
        transaction_hash: TransactionHash(transaction_hash.0),
        actual_fee: Fee(actual_fee),
        execution_resources: ExecutionResources {
            builtin_instance_counter: BuiltinCounters {
                output_builtin: execution_resources.builtins.output as u64,
                pedersen_builtin: execution_resources.builtins.pedersen as u64,
                range_check_builtin: execution_resources.builtins.range_check as u64,
                ecdsa_builtin: execution_resources.builtins.ecdsa as u64,
                bitwise_builtin: execution_resources.builtins.bitwise as u64,
                ec_op_builtin: execution_resources.builtins.ec_op as u64,
                keccak_builtin: execution_resources.builtins.keccak as u64,
                poseidon_builtin: execution_resources.builtins.poseidon as u64,
                segment_arena_builtin: execution_resources.builtins.segment_arena as u64,
            },
            n_steps: execution_resources.steps as u64,
            n_memory_holes: execution_resources.memory_holes as u64,
        },
        l2_to_l1_messages: messages_from_wire(messages_sent),
        revert_error: revert_reason,
    }
}

impl Receipt {
    /// Normalizes a wire receipt: pattern-matches on the kind tag, extracts
    /// the shared substructure — discarding kind-specific extras — and maps
    /// it into the single normalized shape. A union shape outside the
    /// recognized set is a `VariantShapeMismatch` error.
    pub fn try_from(input: receipt::Receipt) -> (r: Result<Receipt, DecodeError>)
        requires
            input.wf(),
        ensures
            result_view(r) == spec_receipt_try_from(input@),
            r matches Ok(x) ==> x.wf(),
    {
        let common = match input {
            receipt::Receipt::Invoke(receipt::InvokeTransactionReceipt { common }) => common,
            receipt::Receipt::Declare(receipt::DeclareTransactionReceipt { common }) => common,
            receipt::Receipt::L1Handler(receipt::L1HandlerTransactionReceipt { common, .. }) => common,
            receipt::Receipt::Deploy(receipt::DeployTransactionReceipt { common, .. }) => common,
            receipt::Receipt::DeployAccount(
                receipt::DeployAccountTransactionReceipt { common, .. },
            ) => common,
            receipt::Receipt::Unrecognized(_) => {
                return Err(DecodeError::VariantShapeMismatch);
            },
        };
        Ok(receipt_from_common(common))
    }
}

/// Receipt normalization is uniform across kinds: two recognized wire
/// receipts that share identical common-field values normalize to identical
/// receipts — hash, fee, all counters, message list and revert reason —
/// regardless of which kind tag wrapped them.
pub proof fn lemma_normalization_uniform(a: receipt::ReceiptView, b: receipt::ReceiptView)
    requires
        spec_common_of(a) is Some,
        spec_common_of(a) == spec_common_of(b),
    ensures
        spec_receipt_try_from(a) == spec_receipt_try_from(b),
{
}

/// An empty outbound-message list normalizes to an empty sequence — a
/// present, empty list, not absence.
pub proof fn lemma_empty_message_list(c: receipt::ReceiptCommonView)
    requires
        c.messages_sent.len() == 0,
    ensures
        spec_receipt_from_common(c).l2_to_l1_messages.len() == 0,
{
}

/// Numeric widening safety: every resource counter survives normalization
/// exactly — in particular a counter at the wire width's maximum value is
/// carried over without truncation or error.
pub proof fn lemma_counter_widening(r: receipt::ExecutionResources)
    ensures
        spec_widen_resources(r).builtin_instance_counter.output_builtin == r.builtins.output as u64,
        spec_widen_resources(r).builtin_instance_counter.pedersen_builtin == r.builtins.pedersen
            as u64,
        spec_widen_resources(r).builtin_instance_counter.range_check_builtin
            == r.builtins.range_check as u64,
        spec_widen_resources(r).builtin_instance_counter.ecdsa_builtin == r.builtins.ecdsa as u64,
        spec_widen_resources(r).builtin_instance_counter.bitwise_builtin == r.builtins.bitwise
            as u64,
        spec_widen_resources(r).builtin_instance_counter.ec_op_builtin == r.builtins.ec_op as u64,
        spec_widen_resources(r).builtin_instance_counter.keccak_builtin == r.builtins.keccak as u64,
        spec_widen_resources(r).builtin_instance_counter.poseidon_builtin == r.builtins.poseidon
            as u64,
        spec_widen_resources(r).builtin_instance_counter.segment_arena_builtin
            == r.builtins.segment_arena as u64,
        spec_widen_resources(r).n_steps == r.steps as u64,
        spec_widen_resources(r).n_memory_holes == r.memory_holes as u64,
{
}

} // verus!

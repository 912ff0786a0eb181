//! Wire-schema message shapes for the state-sync message family.
//!
//! These structs mirror, field for field, the messages of the binary wire
//! schema: every message-typed field is carried as an `Option`, so field
//! presence is representable independently of the field's value, and a oneof
//! is a single-of-N-cases construct whose out-of-schema cases are kept with
//! their raw tag. The codec layer in `state` converts between these shapes
//! and the domain types.

use vstd::prelude::*;

verus! {

/// Wire scalar for a field element: a byte string that the schema constrains
/// to the element's fixed width. This layer assumes the constraint holds (it
/// is enforced below the codec) and records it as well-formedness.
#[derive(Debug, Clone, PartialEq, Eq)]
pub struct Felt252 {
    pub elements: Vec<u8>,
}

impl View for Felt252 {
    type V = Seq<u8>;

    open spec fn view(&self) -> Seq<u8> {
        self.elements@
    }
}

impl DeepView for Felt252 {
    type V = Seq<u8>;

    open spec fn deep_view(&self) -> Seq<u8> {
        self.elements@
    }
}

impl Felt252 {
    /// The schema's scalar constraint: exactly the field element's width.
    pub open spec fn wf(&self) -> bool {
        self@.len() == 32
    }
}

/// Wire scalar for a contract address; same shape as `Felt252`, kept as its
/// own message as in the schema.
#[derive(Debug, Clone, PartialEq, Eq)]
pub struct Address {
    pub elements: Vec<u8>,
}

impl View for Address {
    type V = Seq<u8>;

    open spec fn view(&self) -> Seq<u8> {
        self.elements@
    }
}

impl DeepView for Address {
    type V = Seq<u8>;

    open spec fn deep_view(&self) -> Seq<u8> {
        self.elements@
    }
}

impl Address {
    pub open spec fn wf(&self) -> bool {
        self@.len() == 32
    }
}

/// The oneof giving where a block iteration starts: at a block number or at a
/// header hash.
#[derive(Debug, Clone, PartialEq, Eq)]
pub enum IterationStart {
    BlockNumber(u64),
    Header(Felt252),
}

/// Model of an [`IterationStart`].
pub enum IterationStartView {
    BlockNumber(u64),
    Header(Seq<u8>),
}

impl View for IterationStart {
    type V = IterationStartView;

    open spec fn view(&self) -> IterationStartView {
        match self {
            IterationStart::BlockNumber(n) => IterationStartView::BlockNumber(*n),
            IterationStart::Header(h) => IterationStartView::Header(h@),
        }
    }
}

impl DeepView for IterationStart {
    type V = IterationStartView;

    open spec fn deep_view(&self) -> IterationStartView {
        self@
    }
}

impl IterationStart {
    pub open spec fn wf(&self) -> bool {
        match self {
            IterationStart::BlockNumber(_) => true,
            IterationStart::Header(h) => h.wf(),
        }
    }
}

/// Wire message describing a range, step and direction over the block
/// sequence. The direction is carried as the schema's raw enum tag.
#[derive(Debug, Clone, PartialEq, Eq)]
pub struct Iteration {
    pub start: Option<IterationStart>,
    pub direction: i32,
    pub limit: u64,
    pub step: u64,
}

/// Model of an [`Iteration`].
pub struct IterationView {
    pub start: Option<IterationStartView>,
    pub direction: i32,
    pub limit: u64,
    pub step: u64,
}

impl View for Iteration {
    type V = IterationView;

    open spec fn view(&self) -> IterationView {
        IterationView {
            start: self.start.deep_view(),
            direction: self.direction,
            limit: self.limit,
            step: self.step,
        }
    }
}

impl DeepView for Iteration {
    type V = IterationView;

    open spec fn deep_view(&self) -> IterationView {
        self@
    }
}

impl Iteration {
    pub open spec fn wf(&self) -> bool {
        match self.start {
            Some(s) => s.wf(),
            None => true,
        }
    }
}

/// Wire message for one contract storage slot update.
#[derive(Debug, Clone, PartialEq, Eq)]
pub struct ContractStoredValue {
    pub key: Option<Felt252>,
    pub value: Option<Felt252>,
}

/// Model of a wire [`ContractStoredValue`].
pub struct ContractStoredValueView {
    pub key: Option<Seq<u8>>,
    pub value: Option<Seq<u8>>,
}

impl View for ContractStoredValue {
    type V = ContractStoredValueView;

    open spec fn view(&self) -> ContractStoredValueView {
        ContractStoredValueView { key: self.key.deep_view(), value: self.value.deep_view() }
    }
}

impl DeepView for ContractStoredValue {
    type V = ContractStoredValueView;

    open spec fn deep_view(&self) -> ContractStoredValueView {
        self@
    }
}

impl ContractStoredValue {
    pub open spec fn wf(&self) -> bool {
        &&& (self.key matches Some(k) ==> k.wf())
        &&& (self.value matches Some(v) ==> v.wf())
    }
}

/// Wire message for one contract's state change within a state-diff unit.
#[derive(Debug, Clone, PartialEq, Eq)]
pub struct ContractDiff {
    pub address: Option<Address>,
    pub nonce: Option<Felt252>,
    pub class_hash: Option<Felt252>,
    pub is_replaced: Option<bool>,
    pub values: Vec<ContractStoredValue>,
    pub domain: u32,
}

/// Model of a wire [`ContractDiff`].
pub struct ContractDiffView {
    pub address: Option<Seq<u8>>,
    pub nonce: Option<Seq<u8>>,
    pub class_hash: Option<Seq<u8>>,
    pub is_replaced: Option<bool>,
    pub values: Seq<ContractStoredValueView>,
    pub domain: u32,
}

impl View for ContractDiff {
    type V = ContractDiffView;

    open spec fn view(&self) -> ContractDiffView {
        ContractDiffView {
            address: self.address.deep_view(),
            nonce: self.nonce.deep_view(),
            class_hash: self.class_hash.deep_view(),
            is_replaced: self.is_replaced,
            values: self.values.deep_view(),
            domain: self.domain,
        }
    }
}

impl DeepView for ContractDiff {
    type V = ContractDiffView;

    open spec fn deep_view(&self) -> ContractDiffView {
        self@
    }
}

impl ContractDiff {
    pub open spec fn wf(&self) -> bool {
        &&& (self.address matches Some(a) ==> a.wf())
        &&& (self.nonce matches Some(n) ==> n.wf())
        &&& (self.class_hash matches Some(c) ==> c.wf())
        &&& (forall|i: int| 0 <= i < self.values@.len() ==> self.values@[i].wf())
    }
}

/// Wire message requesting the state diffs of a block range.
#[derive(Debug, Clone, PartialEq, Eq)]
pub struct StateDiffsRequest {
    pub iteration: Option<Iteration>,
}

/// Model of a wire [`StateDiffsRequest`].
pub struct StateDiffsRequestView {
    pub iteration: Option<IterationView>,
}

impl View for StateDiffsRequest {
    type V = StateDiffsRequestView;

    open spec fn view(&self) -> StateDiffsRequestView {
        StateDiffsRequestView { iteration: self.iteration.deep_view() }
    }
}

impl DeepView for StateDiffsRequest {
    type V = StateDiffsRequestView;

    open spec fn deep_view(&self) -> StateDiffsRequestView {
        self@
    }
}

impl StateDiffsRequest {
    pub open spec fn wf(&self) -> bool {
        match self.iteration {
            Some(it) => it.wf(),
            None => true,
        }
    }
}

/// The oneof of a streaming state-diffs response. `Fin` carries the schema's
/// explicit zero-field terminator message; `Unrecognized` stands for a oneof
/// case outside the schema's recognized set, with its raw wire tag.
#[derive(Debug, Clone, PartialEq, Eq)]
pub enum StateDiffMessage {
    ContractDiff(ContractDiff),
    Fin,
    Unrecognized(u32),
}

/// Model of a [`StateDiffMessage`].
pub enum StateDiffMessageView {
    ContractDiff(ContractDiffView),
    Fin,
    Unrecognized(u32),
}

impl View for StateDiffMessage {
    type V = StateDiffMessageView;

    open spec fn view(&self) -> StateDiffMessageView {
        match self {
            StateDiffMessage::ContractDiff(d) => StateDiffMessageView::ContractDiff(d.deep_view()),
            StateDiffMessage::Fin => StateDiffMessageView::Fin,
            StateDiffMessage::Unrecognized(tag) => StateDiffMessageView::Unrecognized(*tag),
        }
    }
}

impl DeepView for StateDiffMessage {
    type V = StateDiffMessageView;

    open spec fn deep_view(&self) -> StateDiffMessageView {
        self@
    }
}

impl StateDiffMessage {
    pub open spec fn wf(&self) -> bool {
        match self {
            StateDiffMessage::ContractDiff(d) => d.wf(),
            StateDiffMessage::Fin => true,
            StateDiffMessage::Unrecognized(_) => true,
        }
    }
}

/// Wire message for one streaming state-diffs response; the oneof slot is
/// optional on the wire exactly like any other message-typed field.
#[derive(Debug, Clone, PartialEq, Eq)]
pub struct StateDiffsResponse {
    pub state_diff_message: Option<StateDiffMessage>,
}

/// Model of a wire [`StateDiffsResponse`].
pub struct StateDiffsResponseView {
    pub state_diff_message: Option<StateDiffMessageView>,
}

impl View for StateDiffsResponse {
    type V = StateDiffsResponseView;

    open spec fn view(&self) -> StateDiffsResponseView {
        StateDiffsResponseView { state_diff_message: self.state_diff_message.deep_view() }
    }
}

impl DeepView for StateDiffsResponse {
    type V = StateDiffsResponseView;

    open spec fn deep_view(&self) -> StateDiffsResponseView {
        self@
    }
}

impl StateDiffsResponse {
    pub open spec fn wf(&self) -> bool {
        match self.state_diff_message {
            Some(m) => m.wf(),
            None => true,
        }
    }
}

} // verus!

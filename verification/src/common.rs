//! Domain scalars shared across the message family, and the block-iteration
//! descriptor carried by a sync request.

use crate::error::{proto_field, result_view, spec_proto_field, DecodeError, DecodeErrorView};
use crate::felt::Felt;
use crate::proto;
use vstd::prelude::*;

verus! {

/// A contract address: a field element in its address role.
#[derive(Debug, Clone, PartialEq, Eq)]
pub struct Address(pub Felt);

impl View for Address {
    type V = Seq<u8>;

    open spec fn view(&self) -> Seq<u8> {
        self.0@
    }
}

impl DeepView for Address {
    type V = Seq<u8>;

    open spec fn deep_view(&self) -> Seq<u8> {
        self.0@
    }
}

impl Address {
    pub open spec fn wf(&self) -> bool {
        self.0.wf()
    }

    /// Encodes the address as its wire scalar.
    pub fn to_protobuf(self) -> (r: proto::Address)
        requires
            self.wf(),
        ensures
            r@ == self@,
            r.wf(),
    {
        proto::Address { elements: self.0.to_be_bytes() }
    }

    /// Decodes the address from its wire scalar; total, the scalar constraint
    /// is enforced below this layer.
    pub fn from_protobuf(input: proto::Address) -> (r: Address)
        requires
            input.wf(),
        ensures
            r@ == input@,
            r.wf(),
    {
        Address(Felt::from_be_bytes(input.elements))
    }
}

/// A hash value: a field element in its hash role. On the wire it shares the
/// field-element scalar shape.
#[derive(Debug, Clone, PartialEq, Eq)]
pub struct Hash(pub Felt);

impl View for Hash {
    type V = Seq<u8>;

    open spec fn view(&self) -> Seq<u8> {
        self.0@
    }
}

impl DeepView for Hash {
    type V = Seq<u8>;

    open spec fn deep_view(&self) -> Seq<u8> {
        self.0@
    }
}

impl Hash {
    pub open spec fn wf(&self) -> bool {
        self.0.wf()
    }

    /// Encodes the hash as its wire scalar.
    pub fn to_protobuf(self) -> (r: proto::Felt252)
        requires
            self.wf(),
        ensures
            r@ == self@,
            r.wf(),
    {
        self.0.to_protobuf()
    }

    /// Decodes the hash from its wire scalar; total, the scalar constraint is
    /// enforced below this layer.
    pub fn from_protobuf(input: proto::Felt252) -> (r: Hash)
        requires
            input.wf(),
        ensures
            r@ == input@,
            r.wf(),
    {
        Hash(Felt::from_protobuf(input))
    }
}

/// An address on the settlement layer: a fixed-width (20-byte) value, carried
/// verbatim between the wire and domain sides.
#[derive(Debug, Clone, PartialEq, Eq)]
pub struct EthereumAddress {
    bytes: Vec<u8>,
}

impl View for EthereumAddress {
    type V = Seq<u8>;

    closed spec fn view(&self) -> Seq<u8> {
        self.bytes@
    }
}

impl DeepView for EthereumAddress {
    type V = Seq<u8>;

    open spec fn deep_view(&self) -> Seq<u8> {
        self.view()
    }
}

impl EthereumAddress {
    pub open spec fn wf(&self) -> bool {
        self@.len() == 20
    }

    /// Builds the address from its 20 bytes.
    pub fn from_bytes(bytes: Vec<u8>) -> (r: EthereumAddress)
        requires
            bytes@.len() == 20,
        ensures
            r@ == bytes@,
            r.wf(),
    {
        EthereumAddress { bytes }
    }

    /// The address's 20 bytes.
    pub fn to_bytes(self) -> (r: Vec<u8>)
        ensures
            r@ == self@,
    {
        self.bytes
    }
}

/// The direction in which a block iteration walks the chain.
#[derive(Debug, Clone, Copy, PartialEq, Eq, Structural)]
pub enum Direction {
    Forward,
    Backward,
}

/// Where a block iteration starts: at a block number or at a header hash.
#[derive(Debug, Clone, PartialEq, Eq)]
pub enum IterationStart {
    BlockNumber(u64),
    Header(Hash),
}

/// Model of an [`IterationStart`].
pub enum IterationStartView {
    BlockNumber(u64),
    Header(Seq<u8>),
}

impl View for IterationStart {
    type V = IterationStartView;

    open spec fn view(&self) -> IterationStartView {
        match self {
            IterationStart::BlockNumber(n) => IterationStartView::BlockNumber(*n),
            IterationStart::Header(h) => IterationStartView::Header(h@),
        }
    }
}

impl DeepView for IterationStart {
    type V = IterationStartView;

    open spec fn deep_view(&self) -> IterationStartView {
        self@
    }
}

impl IterationStart {
    pub open spec fn wf(&self) -> bool {
        match self {
            IterationStart::BlockNumber(_) => true,
            IterationStart::Header(h) => h.wf(),
        }
    }
}

/// A range, step and direction over the block sequence, consumed by a sync
/// request.
#[derive(Debug, Clone, PartialEq, Eq)]
pub struct Iteration {
    pub start: IterationStart,
    pub direction: Direction,
    pub limit: u64,
    pub step: u64,
}

/// Model of an [`Iteration`].
pub struct IterationView {
    pub start: IterationStartView,
    pub direction: Direction,
    pub limit: u64,
    pub step: u64,
}

impl View for Iteration {
    type V = IterationView;

    open spec fn view(&self) -> IterationView {
        IterationView {
            start: self.start@,
            direction: self.direction,
            limit: self.limit,
            step: self.step,
        }
    }
}

impl DeepView for Iteration {
    type V = IterationView;

    open spec fn deep_view(&self) -> IterationView {
        self@
    }
}

/// The wire tag of a [`Direction`].
pub open spec fn spec_direction_to_tag(d: Direction) -> i32 {
    match d {
        Direction::Forward => 0,
        Direction::Backward => 1,
    }
}

/// The direction recognized under a wire tag: tags outside the recognized set
/// are an `UnknownVariant` error.
pub open spec fn spec_direction_from_tag(tag: i32) -> Result<Direction, DecodeErrorView> {
    if tag == 0 {
        Ok(Direction::Forward)
    } else if tag == 1 {
        Ok(Direction::Backward)
    } else {
        Err(DecodeErrorView::UnknownVariant)
    }
}

/// What encoding an [`IterationStart`] yields on the wire.
pub open spec fn spec_start_to_protobuf(s: IterationStartView) -> proto::IterationStartView {
    match s {
        IterationStartView::BlockNumber(n) => proto::IterationStartView::BlockNumber(n),
        IterationStartView::Header(h) => proto::IterationStartView::Header(h),
    }
}

/// What decoding a wire iteration start yields; total, both cases carry
/// already-constrained scalars.
pub open spec fn spec_start_from_protobuf(s: proto::IterationStartView) -> IterationStartView {
    match s {
        proto::IterationStartView::BlockNumber(n) => IterationStartView::BlockNumber(n),
        proto::IterationStartView::Header(h) => IterationStartView::Header(h),
    }
}

/// What encoding an [`Iteration`] yields on the wire: the start oneof is
/// always present, the direction is its wire tag.
pub open spec fn spec_iteration_to_protobuf(it: IterationView) -> proto::IterationView {
    proto::IterationView {
        start: Some(spec_start_to_protobuf(it.start)),
        direction: spec_direction_to_tag(it.direction),
        limit: it.limit,
        step: it.step,
    }
}

/// What decoding a wire iteration yields: a missing start oneof is a
/// `MissingField` under the field's own name, an out-of-set direction tag an
/// `UnknownVariant`; decoding short-circuits on the first failing field in
/// declaration order.
pub open spec fn spec_iteration_try_from_protobuf(w: proto::IterationView) -> Result<
    IterationView,
    DecodeErrorView,
> {
    match spec_proto_field(w.start, "start"@) {
        Err(e) => Err(e),
        Ok(s) => match spec_direction_from_tag(w.direction) {
            Err(e) => Err(e),
            Ok(d) => Ok(
                IterationView {
                    start: spec_start_from_protobuf(s),
                    direction: d,
                    limit: w.limit,
                    step: w.step,
                },
            ),
        },
    }
}

impl Iteration {
    /// Encodes the iteration as its wire message. Total and infallible.
    pub fn to_protobuf(self) -> (r: proto::Iteration)
        requires
            self.start.wf(),
        ensures
            r@ == spec_iteration_to_protobuf(self@),
            r.wf(),
    {
        let start = match self.start {
            IterationStart::BlockNumber(n) => proto::IterationStart::BlockNumber(n),
            IterationStart::Header(h) => proto::IterationStart::Header(h.to_protobuf()),
        };
        let direction: i32 = match self.direction {
            Direction::Forward => 0,
            Direction::Backward => 1,
        };
        proto::Iteration { start: Some(start), direction, limit: self.limit, step: self.step }
    }

    /// Decodes an iteration from its wire message, short-circuiting on the
    /// first failing field.
    #[allow(unused_variables)]
    pub fn try_from_protobuf(input: proto::Iteration, field_name: &str) -> (r: Result<
        Iteration,
        DecodeError,
    >)
        requires
            input.wf(),
        ensures
            result_view(r) == spec_iteration_try_from_protobuf(input@),
            r matches Ok(it) ==> it.start.wf(),
    {
        let start_slot = proto_field(input.start, "start");
        let start = match start_slot {
            Ok(s) => s,
            Err(e) => { return Err(e) },
        };
        let direction = if input.direction == 0 {
            Direction::Forward
        } else if input.direction == 1 {
            Direction::Backward
        } else {
            return Err(DecodeError::UnknownVariant);
        };
        let start = match start {
            proto::IterationStart::BlockNumber(n) => IterationStart::BlockNumber(n),
            proto::IterationStart::Header(h) => IterationStart::Header(Hash::from_protobuf(h)),
        };
        Ok(Iteration { start, direction, limit: input.limit, step: input.step })
    }
}

/// Round trip: decoding an encoded iteration always succeeds and returns the
/// iteration unchanged.
pub proof fn lemma_iteration_round_trip(it: IterationView)
    ensures
        spec_iteration_try_from_protobuf(spec_iteration_to_protobuf(it)) == Ok::<
            IterationView,
            DecodeErrorView,
        >(it),
{
}

} // verus!

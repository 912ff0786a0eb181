//! The fixed-width field element and its primitive wire adapter.
//!
//! The adapter performs no transformation beyond byte-width reinterpretation:
//! it moves the element's bytes into or out of the wire scalar. It has no
//! error path; the wire schema's own scalar constraint (exactly 32 bytes) is
//! enforced by the layer below and assumed here as well-formedness.

use crate::proto;
use vstd::prelude::*;

verus! {

/// A fixed-width (32-byte) field element: the scalar out of which addresses,
/// hashes, nonces and storage slots are built.
#[derive(Debug, Clone, PartialEq, Eq)]
pub struct Felt {
    bytes: Vec<u8>,
}

impl View for Felt {
    type V = Seq<u8>;

    closed spec fn view(&self) -> Seq<u8> {
        self.bytes@
    }
}

impl DeepView for Felt {
    type V = Seq<u8>;

    open spec fn deep_view(&self) -> Seq<u8> {
        self.view()
    }
}

impl Felt {
    /// The element's invariant: exactly the fixed width.
    pub open spec fn wf(&self) -> bool {
        self@.len() == 32
    }

    /// Builds a field element from its 32 big-endian bytes.
    pub fn from_be_bytes(bytes: Vec<u8>) -> (r: Felt)
        requires
            bytes@.len() == 32,
        ensures
            r@ == bytes@,
            r.wf(),
    {
        Felt { bytes }
    }

    /// The element's 32 big-endian bytes.
    pub fn to_be_bytes(self) -> (r: Vec<u8>)
        ensures
            r@ == self@,
    {
        self.bytes
    }

    /// Encodes the element as its wire scalar.
    pub fn to_protobuf(self) -> (r: proto::Felt252)
        requires
            self.wf(),
        ensures
            r@ == self@,
            r.wf(),
    {
        proto::Felt252 { elements: self.bytes }
    }

    /// Decodes the element from its wire scalar. Total: the schema's scalar
    /// constraint is assumed already enforced below this layer.
    pub fn from_protobuf(input: proto::Felt252) -> (r: Felt)
        requires
            input.wf(),
        ensures
            r@ == input@,
            r.wf(),
    {
        Felt { bytes: input.elements }
    }
}

} // verus!

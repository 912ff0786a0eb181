//! The decode-side error taxonomy and the shared required-field extraction
//! primitive.
//!
//! Every "this field must be present" check in the crate goes through
//! [`proto_field`], so a missing structurally required field always surfaces
//! as [`DecodeError::MissingField`] carrying the context name of the field or
//! message being decoded.

use vstd::prelude::*;

verus! {

/// A structural decode failure. Inbound messages come from untrusted peers:
/// each of these is a recoverable error returned to the caller, never a
/// panic.
#[derive(Debug, Clone, PartialEq, Eq)]
pub enum DecodeError {
    /// A structurally required wire field or oneof case was absent; carries
    /// the context name under which it was required.
    MissingField(String),
    /// A oneof or tag value outside the recognized set.
    UnknownVariant,
    /// A wire-level union carried a shape the normalization layer did not
    /// expect.
    VariantShapeMismatch,
}

/// The mathematical model of a [`DecodeError`]: the context name as a
/// character sequence.
pub enum DecodeErrorView {
    MissingField(Seq<char>),
    UnknownVariant,
    VariantShapeMismatch,
}

impl View for DecodeError {
    type V = DecodeErrorView;

    open spec fn view(&self) -> DecodeErrorView {
        match self {
            DecodeError::MissingField(name) => DecodeErrorView::MissingField(name@),
            DecodeError::UnknownVariant => DecodeErrorView::UnknownVariant,
            DecodeError::VariantShapeMismatch => DecodeErrorView::VariantShapeMismatch,
        }
    }
}

impl DeepView for DecodeError {
    type V = DecodeErrorView;

    open spec fn deep_view(&self) -> DecodeErrorView {
        self@
    }
}

/// Model of a whole decode result: the value's model on success, the error's
/// model on failure.
pub open spec fn result_view<T: DeepView, E: DeepView>(r: Result<T, E>) -> Result<T::V, E::V> {
    match r {
        Ok(v) => Ok(v.deep_view()),
        Err(e) => Err(e.deep_view()),
    }
}

/// What required-field extraction returns: the contained value, or a
/// `MissingField` error carrying the context name.
pub open spec fn spec_proto_field<T>(input: Option<T>, field_name: Seq<char>) -> Result<
    T,
    DecodeErrorView,
> {
    match input {
        Some(v) => Ok(v),
        None => Err(DecodeErrorView::MissingField(field_name)),
    }
}

/// Extracts a structurally required field from its optional wire slot, or
/// fails with `MissingField` carrying `field_name`. The single chokepoint for
/// every required-field check in the crate.
pub fn proto_field<T>(input: Option<T>, field_name: &str) -> (r: Result<T, DecodeError>)
    ensures
        (r matches Ok(v) ==> input == Some(v)),
        (r matches Err(e) ==> input is None && e@ == DecodeErrorView::MissingField(field_name@)),
        r is Ok <==> input is Some,
{
    match input {
        Some(v) => Ok(v),
        None => Err(DecodeError::MissingField(field_name.to_owned())),
    }
}

} // verus!

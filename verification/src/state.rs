//! The state-sync message family: storage slot updates, per-contract diffs,
//! the sync request, and the tagged streaming response.
//!
//! Each domain type carries the conversion pair of this codec layer:
//! `to_protobuf` is total and infallible; `try_from_protobuf` is fallible,
//! short-circuits on the first failing field in declaration order, and never
//! returns a partially populated value. Optional fields decode to exactly the
//! presence observed on the wire: absence is never coerced to a default value.

use crate::common::{Address, Iteration, IterationView};
use crate::common::{spec_iteration_to_protobuf, spec_iteration_try_from_protobuf};
use crate::error::{proto_field, result_view, spec_proto_field, DecodeError, DecodeErrorView};
use crate::felt::Felt;
use crate::proto;
use vstd::prelude::*;

verus! {

/// One contract storage slot update: a (key, value) pair of field elements.
#[derive(Debug, Clone, PartialEq, Eq)]
pub struct ContractStoredValue {
    pub key: Felt,
    pub value: Felt,
}

/// Model of a [`ContractStoredValue`].
pub struct ContractStoredValueView {
    pub key: Seq<u8>,
    pub value: Seq<u8>,
}

impl View for ContractStoredValue {
    type V = ContractStoredValueView;

    open spec fn view(&self) -> ContractStoredValueView {
        ContractStoredValueView { key: self.key@, value: self.value@ }
    }
}

impl DeepView for ContractStoredValue {
    type V = ContractStoredValueView;

    open spec fn deep_view(&self) -> ContractStoredValueView {
        self@
    }
}

/// One contract's state change within a state-diff sync unit. Absent optional
/// fields mean "unchanged" (or, for the replacement flag, "not specified") and
/// are distinct observable states from any present value.
#[derive(Debug, Clone, PartialEq, Eq)]
pub struct ContractDiff {
    pub address: Address,
    pub nonce: Option<Felt>,
    pub class_hash: Option<Felt>,
    pub is_replaced: Option<bool>,
    pub values: Vec<ContractStoredValue>,
    pub domain: u32,
}

/// Model of a [`ContractDiff`].
pub struct ContractDiffView {
    pub address: Seq<u8>,
    pub nonce: Option<Seq<u8>>,
    pub class_hash: Option<Seq<u8>>,
    pub is_replaced: Option<bool>,
    pub values: Seq<ContractStoredValueView>,
    pub domain: u32,
}

impl View for ContractDiff {
    type V = ContractDiffView;

    open spec fn view(&self) -> ContractDiffView {
        ContractDiffView {
            address: self.address@,
            nonce: self.nonce.deep_view(),
            class_hash: self.class_hash.deep_view(),
            is_replaced: self.is_replaced,
            values: self.values.deep_view(),
            domain: self.domain,
        }
    }
}

impl DeepView for ContractDiff {
    type V = ContractDiffView;

    open spec fn deep_view(&self) -> ContractDiffView {
        self@
    }
}

/// A request for the state diffs of a block range.
#[derive(Debug, Clone, PartialEq, Eq)]
pub struct StateDiffsRequest {
    pub iteration: Iteration,
}

/// Model of a [`StateDiffsRequest`].
pub struct StateDiffsRequestView {
    pub iteration: IterationView,
}

impl View for StateDiffsRequest {
    type V = StateDiffsRequestView;

    open spec fn view(&self) -> StateDiffsRequestView {
        StateDiffsRequestView { iteration: self.iteration@ }
    }
}

impl DeepView for StateDiffsRequest {
    type V = StateDiffsRequestView;

    open spec fn deep_view(&self) -> StateDiffsRequestView {
        self@
    }
}

/// One streaming response message: either one contract diff, or the explicit
/// end-of-stream terminator `Fin`.
#[derive(Debug, Clone, PartialEq, Eq)]
pub enum StateDiffsResponse {
    ContractDiff(ContractDiff),
    Fin,
}

/// Model of a [`StateDiffsResponse`].
pub enum StateDiffsResponseView {
    ContractDiff(ContractDiffView),
    Fin,
}

impl View for StateDiffsResponse {
    type V = StateDiffsResponseView;

    open spec fn view(&self) -> StateDiffsResponseView {
        match self {
            StateDiffsResponse::ContractDiff(d) => StateDiffsResponseView::ContractDiff(d@),
            StateDiffsResponse::Fin => StateDiffsResponseView::Fin,
        }
    }
}

impl DeepView for StateDiffsResponse {
    type V = StateDiffsResponseView;

    open spec fn deep_view(&self) -> StateDiffsResponseView {
        self@
    }
}

/// The placeholder value is `Fin`: a response a code path fails to set
/// explicitly degrades to "end of stream", never to a fabricated diff.
impl Default for StateDiffsResponse {
    fn default() -> (r: Self)
        ensures
            r == StateDiffsResponse::Fin,
    {
        StateDiffsResponse::Fin
    }
}

impl ContractStoredValue {
    pub open spec fn wf(&self) -> bool {
        &&& self.key.wf()
        &&& self.value.wf()
    }
}

impl ContractDiff {
    pub open spec fn wf(&self) -> bool {
        &&& self.address.wf()
        &&& (self.nonce matches Some(n) ==> n.wf())
        &&& (self.class_hash matches Some(c) ==> c.wf())
        &&& (forall|i: int| 0 <= i < self.values@.len() ==> self.values@[i].wf())
    }
}

impl StateDiffsRequest {
    pub open spec fn wf(&self) -> bool {
        self.iteration.start.wf()
    }
}

impl StateDiffsResponse {
    pub open spec fn wf(&self) -> bool {
        match self {
            StateDiffsResponse::ContractDiff(d) => d.wf(),
            StateDiffsResponse::Fin => true,
        }
    }
}

/// What encoding a slot update yields: both field elements are present on the
/// wire.
pub open spec fn spec_stored_value_to_protobuf(v: ContractStoredValueView)
    -> proto::ContractStoredValueView {
    proto::ContractStoredValueView { key: Some(v.key), value: Some(v.value) }
}

/// What decoding a wire slot update yields: both fields are structurally
/// required, checked in declaration order.
pub open spec fn spec_stored_value_try_from_protobuf(w: proto::ContractStoredValueView) -> Result<
    ContractStoredValueView,
    DecodeErrorView,
> {
    match spec_proto_field(w.key, "key"@) {
        Err(e) => Err(e),
        Ok(k) => match spec_proto_field(w.value, "value"@) {
            Err(e) => Err(e),
            Ok(v) => Ok(ContractStoredValueView { key: k, value: v }),
        },
    }
}

/// What encoding a slot-update sequence yields: element by element, in order.
pub open spec fn spec_values_to_protobuf(vs: Seq<ContractStoredValueView>) -> Seq<
    proto::ContractStoredValueView,
> {
    vs.map_values(|v: ContractStoredValueView| spec_stored_value_to_protobuf(v))
}

/// What decoding a wire slot-update sequence yields: element by element in
/// wire order; the first failing element aborts the whole sequence's decode
/// with its error, so no partial sequence is ever produced.
pub open spec fn spec_values_try_from_protobuf(ws: Seq<proto::ContractStoredValueView>) -> Result<
    Seq<ContractStoredValueView>,
    DecodeErrorView,
>
    decreases ws.len(),
{
    if ws.len() == 0 {
        Ok(Seq::empty())
    } else {
        match spec_values_try_from_protobuf(ws.drop_last()) {
            Err(e) => Err(e),
            Ok(t) => match spec_stored_value_try_from_protobuf(ws.last()) {
                Err(e) => Err(e),
                Ok(h) => Ok(t.push(h)),
            },
        }
    }
}

/// What encoding a contract diff yields: the required address is always
/// present on the wire; each optional field is present exactly when it is
/// present in the domain value.
pub open spec fn spec_contract_diff_to_protobuf(d: ContractDiffView) -> proto::ContractDiffView {
    proto::ContractDiffView {
        address: Some(d.address),
        nonce: d.nonce,
        class_hash: d.class_hash,
        is_replaced: d.is_replaced,
        values: spec_values_to_protobuf(d.values),
        domain: d.domain,
    }
}

/// What decoding a wire contract diff yields: the address is structurally
/// required; optional fields decode to exactly their wire presence; the slot
/// updates decode element by element.
pub open spec fn spec_contract_diff_try_from_protobuf(w: proto::ContractDiffView) -> Result<
    ContractDiffView,
    DecodeErrorView,
> {
    match spec_proto_field(w.address, "address"@) {
        Err(e) => Err(e),
        Ok(a) => match spec_values_try_from_protobuf(w.values) {
            Err(e) => Err(e),
            Ok(vs) => Ok(
                ContractDiffView {
                    address: a,
                    nonce: w.nonce,
                    class_hash: w.class_hash,
                    is_replaced: w.is_replaced,
                    values: vs,
                    domain: w.domain,
                },
            ),
        },
    }
}

/// What encoding a sync request yields: the iteration is always present.
pub open spec fn spec_request_to_protobuf(rq: StateDiffsRequestView)
    -> proto::StateDiffsRequestView {
    proto::StateDiffsRequestView { iteration: Some(spec_iteration_to_protobuf(rq.iteration)) }
}

/// What decoding a wire sync request yields: the iteration is structurally
/// required.
pub open spec fn spec_request_try_from_protobuf(w: proto::StateDiffsRequestView) -> Result<
    StateDiffsRequestView,
    DecodeErrorView,
> {
    match spec_proto_field(w.iteration, "iteration"@) {
        Err(e) => Err(e),
        Ok(it) => match spec_iteration_try_from_protobuf(it) {
            Err(e) => Err(e),
            Ok(i) => Ok(StateDiffsRequestView { iteration: i }),
        },
    }
}

/// What encoding a streaming response yields: the oneof is always set, and
/// `Fin` maps to the schema's explicit zero-field terminator case, never to an
/// absent oneof.
pub open spec fn spec_response_to_protobuf(r: StateDiffsResponseView)
    -> proto::StateDiffsResponseView {
    proto::StateDiffsResponseView {
        state_diff_message: Some(
            match r {
                StateDiffsResponseView::ContractDiff(d) => proto::StateDiffMessageView::ContractDiff(
                    spec_contract_diff_to_protobuf(d),
                ),
                StateDiffsResponseView::Fin => proto::StateDiffMessageView::Fin,
            },
        ),
    }
}

/// What decoding a wire streaming response yields: an unset oneof is a
/// `MissingField` under the supplied context name — there is no silent
/// default to `Fin` on decode — and a case outside the recognized set is an
/// `UnknownVariant`.
pub open spec fn spec_response_try_from_protobuf(
    w: proto::StateDiffsResponseView,
    field_name: Seq<char>,
) -> Result<StateDiffsResponseView, DecodeErrorView> {
    match spec_proto_field(w.state_diff_message, field_name) {
        Err(e) => Err(e),
        Ok(m) => match m {
            proto::StateDiffMessageView::ContractDiff(x) => match spec_contract_diff_try_from_protobuf(
                x,
            ) {
                Err(e) => Err(e),
                Ok(d) => Ok(StateDiffsResponseView::ContractDiff(d)),
            },
            proto::StateDiffMessageView::Fin => Ok(StateDiffsResponseView::Fin),
            proto::StateDiffMessageView::Unrecognized(_) => Err(DecodeErrorView::UnknownVariant),
        },
    }
}

impl ContractStoredValue {
    /// Encodes the slot update as its wire message. Total and infallible.
    pub fn to_protobuf(self) -> (r: proto::ContractStoredValue)
        requires
            self.wf(),
        ensures
            r@ == spec_stored_value_to_protobuf(self@),
            r.wf(),
    {
        proto::ContractStoredValue {
            key: Some(self.key.to_protobuf()),
            value: Some(self.value.to_protobuf()),
        }
    }

    /// Decodes a slot update from its wire message, short-circuiting on the
    /// first missing field.
    #[allow(unused_variables)]
    pub fn try_from_protobuf(input: proto::ContractStoredValue, field_name: &str) -> (r: Result<
        ContractStoredValue,
        DecodeError,
    >)
        requires
            input.wf(),
        ensures
            result_view(r) == spec_stored_value_try_from_protobuf(input@),
            r matches Ok(v) ==> v.wf(),
    {
        let key = match proto_field(input.key, "key") {
            Ok(k) => k,
            Err(e) => { return Err(e) },
        };
        let value = match proto_field(input.value, "value") {
            Ok(v) => v,
            Err(e) => { return Err(e) },
        };
        Ok(ContractStoredValue { key: Felt::from_protobuf(key), value: Felt::from_protobuf(value) })
    }
}

/// A failing prefix decides the whole sequence's decode: once the elements up
/// to `k` fail, the remaining elements are never reached.
proof fn lemma_values_err_extends(s: Seq<proto::ContractStoredValueView>, k: int)
    requires
        0 <= k <= s.len(),
        spec_values_try_from_protobuf(s.take(k)) is Err,
    ensures
        spec_values_try_from_protobuf(s) == spec_values_try_from_protobuf(s.take(k)),
    decreases s.len() - k,
{
    if k == s.len() {
        assert(s.take(k) =~= s);
    } else {
        assert(s.drop_last().take(k) =~= s.take(k));
        lemma_values_err_extends(s.drop_last(), k);
    }
}

/// Decodes a repeated slot-update field element by element in wire order,
/// aborting on the first failing element.
fn try_values_from_protobuf(input: Vec<proto::ContractStoredValue>, field_name: &str) -> (r:
    Result<Vec<ContractStoredValue>, DecodeError>)
    requires
        forall|i: int| 0 <= i < input@.len() ==> input@[i].wf(),
    ensures
        result_view(r) == spec_values_try_from_protobuf(input.deep_view()),
        r matches Ok(vs) ==> forall|i: int| 0 <= i < vs@.len() ==> vs@[i].wf(),
{
    let ghost orig = input.deep_view();
    let mut rest = input;
    let mut out: Vec<ContractStoredValue> = Vec::new();
    proof {
        assert(orig.take(0) =~= Seq::<proto::ContractStoredValueView>::empty());
        assert(out.deep_view() =~= Seq::<ContractStoredValueView>::empty());
        assert(rest.deep_view() =~= orig.skip(0));
    }
    while rest.len() > 0
        invariant
            orig == input.deep_view(),
            out@.len() + rest@.len() == orig.len(),
            rest.deep_view() == orig.skip(out@.len() as int),
            spec_values_try_from_protobuf(orig.take(out@.len() as int)) == Ok::<
                Seq<ContractStoredValueView>,
                DecodeErrorView,
            >(out.deep_view()),
            forall|i: int| 0 <= i < rest@.len() ==> rest@[i].wf(),
            forall|i: int| 0 <= i < out@.len() ==> out@[i].wf(),
        decreases rest@.len(),
    {
        let ghost k = out@.len() as int;
        let ghost pre_out = out.deep_view();
        let ghost pre_rest = rest.deep_view();
        let ghost pre_exec = rest@;
        let w = rest.remove(0);
        proof {
            assert(w.deep_view() == pre_rest[0]);
            assert(pre_rest[0] == orig[k]);
            assert forall|i: int| 0 <= i < rest@.len() implies rest.deep_view()[i] == orig.skip(
                k + 1,
            )[i] by {
                assert(rest@[i] == pre_exec[i + 1]);
                assert(rest.deep_view()[i] == rest@[i].deep_view());
                assert(pre_rest[i + 1] == pre_exec[i + 1].deep_view());
                assert(pre_rest[i + 1] == orig.skip(k)[i + 1]);
            }
            assert(rest.deep_view() =~= orig.skip(k + 1));
            assert(orig.take(k + 1).drop_last() =~= orig.take(k));
            assert(orig.take(k + 1).last() == orig[k]);
        }
        match ContractStoredValue::try_from_protobuf(w, field_name) {
            Ok(v) => {
                out.push(v);
                proof {
                    assert(out.deep_view() =~= pre_out.push(v@));
                }
            },
            Err(e) => {
                proof {
                    assert(spec_values_try_from_protobuf(orig.take(k + 1)) == Err::<
                        Seq<ContractStoredValueView>,
                        DecodeErrorView,
                    >(e@));
                    lemma_values_err_extends(orig, k + 1);
                    assert(spec_values_try_from_protobuf(orig) == Err::<
                        Seq<ContractStoredValueView>,
                        DecodeErrorView,
                    >(e@));
                }
                return Err(e);
            },
        }
    }
    proof {
        assert(orig.take(out@.len() as int) =~= orig);
    }
    Ok(out)
}

impl ContractDiff {
    /// Encodes the diff as its wire message. Total and infallible: the
    /// required address is always set, each optional field keeps exactly its
    /// domain presence, and the slot updates are encoded in order.
    pub fn to_protobuf(self) -> (r: proto::ContractDiff)
        requires
            self.wf(),
        ensures
            r@ == spec_contract_diff_to_protobuf(self@),
            r.wf(),
    {
        let ContractDiff { address, nonce, class_hash, is_replaced, values, domain } = self;
        let ghost orig = values.deep_view();
        let mut rest = values;
        let mut out: Vec<proto::ContractStoredValue> = Vec::new();
        proof {
            assert(orig.take(0) =~= Seq::<ContractStoredValueView>::empty());
            assert(spec_values_to_protobuf(orig.take(0)) =~= Seq::<
                proto::ContractStoredValueView,
            >::empty());
            assert(out.deep_view() =~= Seq::<proto::ContractStoredValueView>::empty());
            assert(rest.deep_view() =~= orig.skip(0));
        }
        while rest.len() > 0
            invariant
                out@.len() + rest@.len() == orig.len(),
                rest.deep_view() == orig.skip(out@.len() as int),
                out.deep_view() == spec_values_to_protobuf(orig.take(out@.len() as int)),
                forall|i: int| 0 <= i < rest@.len() ==> rest@[i].wf(),
                forall|i: int| 0 <= i < out@.len() ==> out@[i].wf(),
            decreases rest@.len(),
        {
            let ghost k = out@.len() as int;
            let ghost pre_out = out.deep_view();
            let ghost pre_rest = rest.deep_view();
            let ghost pre_exec = rest@;
            let v = rest.remove(0);
            proof {
                assert(v.deep_view() == pre_rest[0]);
                assert(pre_rest[0] == orig[k]);
                assert forall|i: int| 0 <= i < rest@.len() implies rest.deep_view()[i]
                    == orig.skip(k + 1)[i] by {
                    assert(rest@[i] == pre_exec[i + 1]);
                    assert(rest.deep_view()[i] == rest@[i].deep_view());
                    assert(pre_rest[i + 1] == pre_exec[i + 1].deep_view());
                    assert(pre_rest[i + 1] == orig.skip(k)[i + 1]);
                }
                assert(rest.deep_view() =~= orig.skip(k + 1));
            }
            let w = v.to_protobuf();
            out.push(w);
            proof {
                assert(out.deep_view() =~= pre_out.push(w@));
                assert(orig.take(k + 1) =~= orig.take(k).push(orig[k]));
                assert(spec_values_to_protobuf(orig.take(k + 1)) =~= spec_values_to_protobuf(
                    orig.take(k),
                ).push(spec_stored_value_to_protobuf(orig[k])));
            }
        }
        proof {
            assert(orig.take(out@.len() as int) =~= orig);
        }
        let nonce = match nonce {
            Some(f) => Some(f.to_protobuf()),
            None => None,
        };
        let class_hash = match class_hash {
            Some(f) => Some(f.to_protobuf()),
            None => None,
        };
        proto::ContractDiff {
            address: Some(address.to_protobuf()),
            nonce,
            class_hash,
            is_replaced,
            values: out,
            domain,
        }
    }

    /// Decodes a contract diff from its wire message, short-circuiting on the
    /// first failing field in declaration order. Optional fields decode to
    /// exactly their wire presence, never to a fabricated default.
    pub fn try_from_protobuf(input: proto::ContractDiff, field_name: &str) -> (r: Result<
        ContractDiff,
        DecodeError,
    >)
        requires
            input.wf(),
        ensures
            result_view(r) == spec_contract_diff_try_from_protobuf(input@),
            r matches Ok(d) ==> d.wf(),
    {
        let proto::ContractDiff { address, nonce, class_hash, is_replaced, values, domain } = input;
        let address = match proto_field(address, "address") {
            Ok(a) => a,
            Err(e) => { return Err(e) },
        };
        let address = Address::from_protobuf(address);
        let values = match try_values_from_protobuf(values, field_name) {
            Ok(vs) => vs,
            Err(e) => { return Err(e) },
        };
        let nonce = match nonce {
            Some(f) => Some(Felt::from_protobuf(f)),
            None => None,
        };
        let class_hash = match class_hash {
            Some(f) => Some(Felt::from_protobuf(f)),
            None => None,
        };
        Ok(ContractDiff { address, nonce, class_hash, is_replaced, values, domain })
    }
}

impl StateDiffsRequest {
    /// Encodes the request as its wire message. Total and infallible.
    pub fn to_protobuf(self) -> (r: proto::StateDiffsRequest)
        requires
            self.wf(),
        ensures
            r@ == spec_request_to_protobuf(self@),
            r.wf(),
    {
        proto::StateDiffsRequest { iteration: Some(self.iteration.to_protobuf()) }
    }

    /// Decodes a sync request from its wire message; the iteration is
    /// structurally required.
    #[allow(unused_variables)]
    pub fn try_from_protobuf(input: proto::StateDiffsRequest, field_name: &str) -> (r: Result<
        StateDiffsRequest,
        DecodeError,
    >)
        requires
            input.wf(),
        ensures
            result_view(r) == spec_request_try_from_protobuf(input@),
            r matches Ok(rq) ==> rq.wf(),
    {
        let it = match proto_field(input.iteration, "iteration") {
            Ok(it) => it,
            Err(e) => { return Err(e) },
        };
        match Iteration::try_from_protobuf(it, "iteration") {
            Ok(i) => Ok(StateDiffsRequest { iteration: i }),
            Err(e) => Err(e),
        }
    }
}

impl StateDiffsResponse {
    /// Encodes the response as its wire message: the oneof is always set, and
    /// `Fin` maps to the explicit zero-field terminator case — the wire form
    /// carries a positive end-of-stream signal, never an absent field.
    pub fn to_protobuf(self) -> (r: proto::StateDiffsResponse)
        requires
            self.wf(),
        ensures
            r@ == spec_response_to_protobuf(self@),
            r.wf(),
    {
        proto::StateDiffsResponse {
            state_diff_message: Some(
                match self {
                    StateDiffsResponse::ContractDiff(d) => proto::StateDiffMessage::ContractDiff(
                        d.to_protobuf(),
                    ),
                    StateDiffsResponse::Fin => proto::StateDiffMessage::Fin,
                },
            ),
        }
    }

    /// Decodes a streaming response from its wire message. An unset oneof is
    /// a `MissingField` carrying the supplied context name; a case outside
    /// the recognized set is an `UnknownVariant`; neither panics.
    pub fn try_from_protobuf(input: proto::StateDiffsResponse, field_name: &str) -> (r: Result<
        StateDiffsResponse,
        DecodeError,
    >)
        requires
            input.wf(),
        ensures
            result_view(r) == spec_response_try_from_protobuf(input@, field_name@),
            r matches Ok(resp) ==> resp.wf(),
    {
        let msg = match proto_field(input.state_diff_message, field_name) {
            Ok(m) => m,
            Err(e) => { return Err(e) },
        };
        match msg {
            proto::StateDiffMessage::ContractDiff(x) => match ContractDiff::try_from_protobuf(
                x,
                field_name,
            ) {
                Ok(d) => Ok(StateDiffsResponse::ContractDiff(d)),
                Err(e) => Err(e),
            },
            proto::StateDiffMessage::Fin => Ok(StateDiffsResponse::Fin),
            proto::StateDiffMessage::Unrecognized(_) => Err(DecodeError::UnknownVariant),
        }
    }
}

/// Round trip: decoding an encoded slot update returns it unchanged.
pub proof fn lemma_stored_value_round_trip(v: ContractStoredValueView)
    ensures
        spec_stored_value_try_from_protobuf(spec_stored_value_to_protobuf(v)) == Ok::<
            ContractStoredValueView,
            DecodeErrorView,
        >(v),
{
}

/// Round trip: decoding an encoded slot-update sequence returns it unchanged,
/// element for element and in order.
pub proof fn lemma_values_round_trip(vs: Seq<ContractStoredValueView>)
    ensures
        spec_values_try_from_protobuf(spec_values_to_protobuf(vs)) == Ok::<
            Seq<ContractStoredValueView>,
            DecodeErrorView,
        >(vs),
    decreases vs.len(),
{
    if vs.len() == 0 {
        assert(spec_values_to_protobuf(vs) =~= Seq::<proto::ContractStoredValueView>::empty());
        assert(vs =~= Seq::<ContractStoredValueView>::empty());
    } else {
        lemma_values_round_trip(vs.drop_last());
        assert(spec_values_to_protobuf(vs).drop_last() =~= spec_values_to_protobuf(vs.drop_last()));
        assert(spec_values_to_protobuf(vs).last() == spec_stored_value_to_protobuf(vs.last()));
        lemma_stored_value_round_trip(vs.last());
        assert(vs.drop_last().push(vs.last()) =~= vs);
    }
}

/// Round trip: decoding an encoded contract diff always succeeds and returns
/// the diff unchanged, whether each optional field is absent or present.
pub proof fn lemma_contract_diff_round_trip(d: ContractDiffView)
    ensures
        spec_contract_diff_try_from_protobuf(spec_contract_diff_to_protobuf(d)) == Ok::<
            ContractDiffView,
            DecodeErrorView,
        >(d),
{
    lemma_values_round_trip(d.values);
}

/// Round trip: decoding an encoded sync request always succeeds and returns
/// the request unchanged.
pub proof fn lemma_request_round_trip(rq: StateDiffsRequestView)
    ensures
        spec_request_try_from_protobuf(spec_request_to_protobuf(rq)) == Ok::<
            StateDiffsRequestView,
            DecodeErrorView,
        >(rq),
{
    crate::common::lemma_iteration_round_trip(rq.iteration);
}

/// Round trip: decoding an encoded streaming response always succeeds and
/// returns the response unchanged, under any context name.
pub proof fn lemma_response_round_trip(r: StateDiffsResponseView, field_name: Seq<char>)
    ensures
        spec_response_try_from_protobuf(spec_response_to_protobuf(r), field_name) == Ok::<
            StateDiffsResponseView,
            DecodeErrorView,
        >(r),
{
    match r {
        StateDiffsResponseView::ContractDiff(d) => lemma_contract_diff_round_trip(d),
        StateDiffsResponseView::Fin => {},
    }
}

/// Optional-field distinction: encoding preserves each optional field's
/// presence bit for bit — an absent field stays absent on the wire and
/// decodes back to absent, and a present field (even one holding a zero
/// value) stays present and decodes back to the same value. "Absent" and
/// "present with zero value" are distinct observable states end to end.
pub proof fn lemma_optional_fields_distinct(d: ContractDiffView)
    ensures
        spec_contract_diff_to_protobuf(d).nonce == d.nonce,
        spec_contract_diff_to_protobuf(d).class_hash == d.class_hash,
        spec_contract_diff_to_protobuf(d).is_replaced == d.is_replaced,
        spec_contract_diff_try_from_protobuf(spec_contract_diff_to_protobuf(d)) matches Ok(back)
            && back.nonce == d.nonce && back.class_hash == d.class_hash && back.is_replaced
            == d.is_replaced,
{
    lemma_contract_diff_round_trip(d);
}

/// Missing required field: decoding a wire response whose oneof slot is unset
/// fails with `MissingField` carrying the supplied context name.
pub proof fn lemma_unset_oneof_is_missing_field(field_name: Seq<char>)
    ensures
        spec_response_try_from_protobuf(
            proto::StateDiffsResponseView { state_diff_message: None },
            field_name,
        ) == Err::<StateDiffsResponseView, DecodeErrorView>(
            DecodeErrorView::MissingField(field_name),
        ),
{
}

/// Unknown tagged-union case: decoding a wire response whose oneof case lies
/// outside the recognized set fails with `UnknownVariant`, whatever the tag.
pub proof fn lemma_unknown_case_is_unknown_variant(tag: u32, field_name: Seq<char>)
    ensures
        spec_response_try_from_protobuf(
            proto::StateDiffsResponseView {
                state_diff_message: Some(proto::StateDiffMessageView::Unrecognized(tag)),
            },
            field_name,
        ) == Err::<StateDiffsResponseView, DecodeErrorView>(DecodeErrorView::UnknownVariant),
{
}

} // verus!

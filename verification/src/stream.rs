//! The consumer-side ordering discipline of a streaming state-diffs exchange.
//!
//! The codec itself is stateless: each response message encodes and decodes
//! on its own. The stream, not the single message, carries the transition
//! structure: a complete exchange is zero or more `ContractDiff` messages
//! followed by exactly one `Fin`, and a consumer must stop once it has seen
//! `Fin`, treating any further message on the same logical stream as a
//! protocol violation. This module states that obligation and checks it.

use crate::state::{StateDiffsResponse, StateDiffsResponseView};
use vstd::prelude::*;

verus! {

/// A well-formed logical stream: non-empty, every message before the last is
/// a `ContractDiff`, and the last message is the single `Fin` terminator.
pub open spec fn stream_well_formed(s: Seq<StateDiffsResponseView>) -> bool {
    &&& s.len() > 0
    &&& (s.last() is Fin)
    &&& (forall|i: int| 0 <= i < s.len() - 1 ==> s[i] is ContractDiff)
}

/// The consumer's position in a streaming exchange: still consuming, or done
/// because `Fin` was observed.
#[derive(Debug, Clone, Copy, PartialEq, Eq, Structural)]
pub enum StreamState {
    Streaming,
    Done,
}

/// What one observed message does to the consumer state, and whether it is a
/// protocol violation: a diff while streaming keeps streaming, `Fin` ends the
/// stream, and any message after `Fin` — a diff or a second `Fin` — violates
/// the ordering obligation.
pub open spec fn spec_observe(state: StreamState, msg: StateDiffsResponseView) -> (
    StreamState,
    bool,
) {
    match state {
        StreamState::Streaming => match msg {
            StateDiffsResponseView::ContractDiff(_) => (StreamState::Streaming, false),
            StateDiffsResponseView::Fin => (StreamState::Done, false),
        },
        StreamState::Done => (StreamState::Done, true),
    }
}

/// The consumer state and violation flag after observing a whole message
/// sequence from the start of an exchange.
pub open spec fn spec_observe_all(s: Seq<StateDiffsResponseView>) -> (StreamState, bool)
    decreases s.len(),
{
    if s.len() == 0 {
        (StreamState::Streaming, false)
    } else {
        let prior = spec_observe_all(s.drop_last());
        let step = spec_observe(prior.0, s.last());
        (step.0, prior.1 || step.1)
    }
}

impl StreamState {
    /// Observes one message: returns the next state and whether the message
    /// violates the stream-order obligation.
    pub fn observe(self, msg: &StateDiffsResponse) -> (r: (StreamState, bool))
        ensures
            r == spec_observe(self, msg.deep_view()),
    {
        match self {
            StreamState::Streaming => match msg {
                StateDiffsResponse::ContractDiff(_) => (StreamState::Streaming, false),
                StateDiffsResponse::Fin => (StreamState::Done, false),
            },
            StreamState::Done => (StreamState::Done, true),
        }
    }
}

/// Checks a whole message sequence against the stream-order obligation.
pub fn stream_is_well_formed(msgs: &Vec<StateDiffsResponse>) -> (r: bool)
    ensures
        r == stream_well_formed(msgs.deep_view()),
{
    let n = msgs.len();
    if n == 0 {
        return false;
    }
    let mut i: usize = 0;
    while i < n - 1
        invariant
            n == msgs@.len(),
            n > 0,
            0 <= i <= n - 1,
            forall|j: int| 0 <= j < i ==> msgs.deep_view()[j] is ContractDiff,
        decreases n - 1 - i,
    {
        match &msgs[i] {
            StateDiffsResponse::ContractDiff(_) => {},
            StateDiffsResponse::Fin => {
                proof {
                    assert(msgs.deep_view()[i as int] is Fin);
                }
                return false;
            },
        }
        proof {
            assert(msgs.deep_view()[i as int] is ContractDiff);
        }
        i += 1;
    }
    match &msgs[n - 1] {
        StateDiffsResponse::ContractDiff(_) => {
            proof {
                assert(msgs.deep_view().last() is ContractDiff);
            }
            false
        },
        StateDiffsResponse::Fin => {
            proof {
                assert(msgs.deep_view().last() is Fin);
            }
            true
        },
    }
}

/// A prefix of diffs leaves the consumer streaming with nothing violated.
proof fn lemma_all_diffs_keep_streaming(s: Seq<StateDiffsResponseView>)
    requires
        forall|i: int| 0 <= i < s.len() ==> s[i] is ContractDiff,
    ensures
        spec_observe_all(s) == (StreamState::Streaming, false),
    decreases s.len(),
{
    if s.len() > 0 {
        lemma_all_diffs_keep_streaming(s.drop_last());
        assert(s.last() is ContractDiff);
    }
}

/// A run that ends streaming with nothing violated saw only diffs.
proof fn lemma_streaming_run_is_all_diffs(s: Seq<StateDiffsResponseView>)
    requires
        spec_observe_all(s) == (StreamState::Streaming, false),
    ensures
        forall|i: int| 0 <= i < s.len() ==> s[i] is ContractDiff,
    decreases s.len(),
{
    if s.len() > 0 {
        let prior = spec_observe_all(s.drop_last());
        if prior.0 is Done {
            assert(spec_observe_all(s).1);
        }
        lemma_streaming_run_is_all_diffs(s.drop_last());
        assert(forall|i: int| 0 <= i < s.len() - 1 ==> s[i] == s.drop_last()[i]);
    }
}

/// The stream-order obligation and the consumer state machine agree: a
/// message sequence is a well-formed exchange exactly when a consumer that
/// observes it ends done — `Fin` seen — with no violation flagged. In
/// particular a sequence with a second `Fin`, or with a diff after a `Fin`,
/// is flagged as a protocol violation.
pub proof fn lemma_stream_discipline(s: Seq<StateDiffsResponseView>)
    ensures
        stream_well_formed(s) <==> spec_observe_all(s) == (StreamState::Done, false),
{
    if stream_well_formed(s) {
        lemma_all_diffs_keep_streaming(s.drop_last());
    }
    if spec_observe_all(s) == (StreamState::Done, false) {
        assert(s.len() > 0);
        let prior = spec_observe_all(s.drop_last());
        if prior.0 is Done {
            assert(spec_observe_all(s).1);
        }
        assert(prior == (StreamState::Streaming, false));
        assert(s.last() is Fin);
        lemma_streaming_run_is_all_diffs(s.drop_last());
        assert(forall|i: int| 0 <= i < s.len() - 1 ==> s[i] == s.drop_last()[i]);
    }
}

} // verus!

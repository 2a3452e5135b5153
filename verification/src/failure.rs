//! Failure classification: every failed executor action carries a severity
//! tag that tells the driver whether to halt, abort the batch, or retry.

use vstd::prelude::*;

verus! {

/// Severity of a failed action.
///
/// - `Critical`: invariant violation or programming-level inconsistency
///   (missing required prior-phase data); the worker halts for this batch.
/// - `Permanent`: the sector can never succeed (chain rejected it, data
///   unavailable); the batch moves to its aborted state.
/// - `Temporary`: transient condition; the same state is retried after a
///   backoff by the external driver.
/// - `Abort`: explicit, intended termination; same terminal effect as
///   `Permanent` but signals intent rather than error.
#[derive(Clone, Copy, Debug, PartialEq, Eq, Structural)]
pub enum FailureKind {
    Critical,
    Permanent,
    Temporary,
    Abort,
}

/// A classified failure: severity plus a human-readable description.
#[derive(Debug)]
pub struct Failure {
    pub kind: FailureKind,
    pub message: String,
}

impl Failure {
    /// Tags an invariant violation; never retried.
    pub fn critical(message: &str) -> (f: Failure)
        ensures
            f.kind == FailureKind::Critical,
            f.message@ == message@,
    {
        Failure { kind: FailureKind::Critical, message: String::from_str(message) }
    }

    /// Tags a failure the sector can never recover from.
    pub fn permanent(message: &str) -> (f: Failure)
        ensures
            f.kind == FailureKind::Permanent,
            f.message@ == message@,
    {
        Failure { kind: FailureKind::Permanent, message: String::from_str(message) }
    }

    /// Tags a transient condition; the driver retries the same state later.
    pub fn temporary(message: &str) -> (f: Failure)
        ensures
            f.kind == FailureKind::Temporary,
            f.message@ == message@,
    {
        Failure { kind: FailureKind::Temporary, message: String::from_str(message) }
    }

    /// Tags an explicit, intended termination of the batch.
    pub fn abort(message: &str) -> (f: Failure)
        ensures
            f.kind == FailureKind::Abort,
            f.message@ == message@,
    {
        Failure { kind: FailureKind::Abort, message: String::from_str(message) }
    }
}

/// A base message with the responder's description appended, when one came:
/// failures are reported with the full context the other side gave.
pub open spec fn with_detail_spec(base: Seq<char>, desc: Option<String>) -> Seq<char> {
    match desc {
        Some(d) => base + ": "@ + d@,
        None => base,
    }
}

/// Builds a failure message from a base text and an optional description
/// from the responder; exactly [`with_detail_spec`].
pub fn with_detail(base: &str, desc: Option<String>) -> (m: String)
    ensures
        m@ == with_detail_spec(base@, desc),
{
    let mut m = String::from_str(base);
    match desc {
        Some(d) => {
            m.append(": ");
            m.append(d.as_str());
            proof {
                assert(m@ =~= base@ + ": "@ + d@);
            }
        },
        None => {},
    }
    m
}

/// The leaf failure classifier for transport errors: an RPC error is a
/// transient condition, retried by the driver after a backoff.
pub fn classify_rpc(e: crate::rpc::RpcError) -> (f: Failure)
    ensures
        f.kind == FailureKind::Temporary,
        f.message@ == e.message@,
{
    Failure { kind: FailureKind::Temporary, message: e.message }
}

/// Errors the planner itself can raise; they are always critical for the
/// batch (they indicate a driver bug, not an external condition).
#[derive(Clone, Copy, Debug, PartialEq, Eq, Structural)]
pub enum PlanError {
    /// The (state, event) pair is not part of the declared transition table.
    UnexpectedStateEvent,
    /// The computed next state equals the current one; accepting it would
    /// make the driver loop forever.
    StateUnchanged,
}

impl PlanError {
    /// Wraps a planner error as a critical failure.
    pub fn to_failure(self) -> (f: Failure)
        ensures
            f.kind == FailureKind::Critical,
    {
        match self {
            PlanError::UnexpectedStateEvent => Failure::critical("unexpected state and event"),
            PlanError::StateUnchanged => Failure::critical(
                "state unchanged, may enter an infinite loop",
            ),
        }
    }
}

} // verus!

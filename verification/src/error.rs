//! The error taxonomy of the workflow. Every error is fatal to the
//! current chain or step: nothing is retried.

use vstd::prelude::*;

verus! {

use crate::decode::DecodeError;

/// Why a workflow step failed. Each variant is terminal for its chain.
#[derive(Clone, Copy, Debug, PartialEq, Eq, Structural)]
pub enum WorkflowError {
    /// A self-only entrypoint was invoked by a caller other than the
    /// orchestrator's own identity.
    Unauthorized,
    /// A continuation expected exactly one attached prior result and got
    /// another count.
    ShapeViolation,
    /// The prior chain resolved to `Failed`.
    UpstreamFailed,
    /// The prior chain resolved to `NotReady`; treated as a failure and
    /// never retried.
    UpstreamNotReady,
    /// The prior step's payload could not be decoded into a number.
    Decode(DecodeError),
    /// The parity predicate did not hold, so no transfer is owed. For the
    /// workflow as a whole this is a valid terminal state, not a fault.
    PredicateUnmet,
    /// The compute budget attached to the call cannot cover the steps
    /// being scheduled.
    GasExhausted,
}

} // verus!

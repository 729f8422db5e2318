//! The bridge's error taxonomy.
//!
//! The bridge distinguishes two failure causes that are surfaced to script
//! code as errors. A host-reported failure is deliberately *not* among them:
//! a nonzero host status is an ordinary boolean result (`false`), letting
//! policy scripts build their own deny/allow logic on top of it.

use vstd::prelude::*;

verus! {

/// Why a bridge entry point failed before or instead of reaching the host.
#[derive(Clone, Copy, PartialEq, Eq, Structural, Debug)]
pub enum BridgeError {
    /// The process invocation arguments did not have exactly two entries, so
    /// no policy action name is available. This indicates a host
    /// misconfiguration, not a recoverable runtime condition.
    MalformedInvocation,
    /// A host-call argument was absent or had no usable representation
    /// (missing text field, or a payload with no realized byte-buffer
    /// backing). No boundary call is attempted in this case.
    InvalidCallInput,
}

} // verus!

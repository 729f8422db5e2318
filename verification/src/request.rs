//! The logical host-call request and its validation.
//!
//! Script code hands the bridge four arguments. Before anything crosses the
//! boundary, each must have a realized representation: the three routing
//! fields as text, the payload as a contiguous byte buffer. A script value
//! for which the sandbox could produce no such representation arrives here as
//! `None`, and validation rejects the whole call before any host interaction
//! occurs — the bridge never forwards an unvalidated reference across the
//! boundary.

use vstd::prelude::*;

use crate::error::BridgeError;

verus! {

/// The bridge's arguments as the sandbox delivers them, before validation.
///
/// A field is `None` when the script-supplied value had no realizable
/// representation of the required shape (absent or non-text routing field;
/// payload with no backing byte buffer, such as a detached binary value).
pub struct RawCallArgs {
    /// The host-side routing table entry to use, as realized text.
    pub binding: Option<String>,
    /// The capability namespace within that routing table, as realized text.
    pub namespace: Option<String>,
    /// The operation name within that namespace, as realized text.
    pub operation: Option<String>,
    /// The opaque serialized argument, as a realized contiguous byte buffer.
    pub payload: Option<Vec<u8>>,
}

/// A validated request: four required fields, none absent, consumed by
/// exactly one boundary call and never retained past it.
pub struct HostCallRequest {
    /// Selects which host-side capability table the call targets.
    pub binding: String,
    /// First level of the capability name within the binding's table.
    pub namespace: String,
    /// Second level of the capability name: the operation to invoke.
    pub operation: String,
    /// Opaque caller-defined bytes; the bridge never interprets them.
    pub payload: Vec<u8>,
}

/// The mathematical content of a request: what the host observes, whichever
/// adapter lowers the call.
pub ghost struct RequestModel {
    pub binding: Seq<char>,
    pub namespace: Seq<char>,
    pub operation: Seq<char>,
    pub payload: Seq<u8>,
}

impl View for HostCallRequest {
    type V = RequestModel;

    open spec fn view(&self) -> RequestModel {
        RequestModel {
            binding: self.binding@,
            namespace: self.namespace@,
            operation: self.operation@,
            payload: self.payload@,
        }
    }
}

/// Whether all four script-supplied arguments had realizable representations.
pub open spec fn args_wf(args: RawCallArgs) -> bool {
    &&& args.binding is Some
    &&& args.namespace is Some
    &&& args.operation is Some
    &&& args.payload is Some
}

/// The request a well-formed argument set denotes.
pub open spec fn args_model(args: RawCallArgs) -> RequestModel
    recommends
        args_wf(args),
{
    RequestModel {
        binding: args.binding->Some_0@,
        namespace: args.namespace->Some_0@,
        operation: args.operation->Some_0@,
        payload: args.payload->Some_0@,
    }
}

/// Validates the bridge's arguments. Succeeds, carrying every field over
/// verbatim, exactly when all four are present; otherwise rejects the call
/// with the invalid-input error, and the caller must not attempt any
/// boundary call.
pub fn validate_call_args(args: RawCallArgs) -> (r: Result<HostCallRequest, BridgeError>)
    ensures
        r is Ok <==> args_wf(args),
        args_wf(args) ==> r->Ok_0@ == args_model(args),
        !args_wf(args) ==> r == Err::<HostCallRequest, BridgeError>(BridgeError::InvalidCallInput),
{
    match (args.binding, args.namespace, args.operation, args.payload) {
        (Some(binding), Some(namespace), Some(operation), Some(payload)) => {
            Ok(HostCallRequest { binding, namespace, operation, payload })
        },
        _ => Err(BridgeError::InvalidCallInput),
    }
}

} // verus!

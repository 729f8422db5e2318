//! The host-call bridge: one logical request, one boundary call, one boolean.
//!
//! Each `__hostCall` invocation validates its four arguments, lowers them
//! through exactly one of the two adapters, issues exactly one boundary call,
//! and lifts the host's answer into the boolean the script sees: `true` iff
//! the host reported success. A call whose arguments fail validation is
//! rejected before any host interaction; a host-reported failure is not an
//! error but the ordinary result `false`. There is no retry, no buffering,
//! and no second crossing per script-level call.

use vstd::prelude::*;

use crate::error::BridgeError;
use crate::host::HostFailure;
use crate::host::StubHost;
use crate::host::interface_result_of;
use crate::host::interface_verdict;
use crate::host::raw_verdict;
use crate::request::HostCallRequest;
use crate::request::RawCallArgs;
use crate::request::args_model;
use crate::request::args_wf;
use crate::request::validate_call_args;

verus! {

/// Lifts the raw adapter's machine-word status into the script-visible
/// boolean: `true` exactly when the status is the defined success value
/// (zero); every nonzero status, whatever its value, maps to `false`.
pub fn resolve_raw_status(status: usize) -> (ok: bool)
    ensures
        ok == raw_verdict(status),
{
    status == 0
}

/// Lifts the interface adapter's typed result into the script-visible
/// boolean: `true` exactly on `Ok`. The error's content is dropped, so no
/// host-specific detail reaches script code.
pub fn resolve_interface_result(r: Result<(), HostFailure>) -> (ok: bool)
    ensures
        ok == interface_verdict(r),
{
    match r {
        Ok(()) => true,
        Err(_) => false,
    }
}

/// One complete `__hostCall` through the raw adapter, against an observing
/// dispatcher.
///
/// For ill-formed arguments the call is rejected with the invalid-input
/// error and the host is left untouched: no boundary call is issued. For
/// well-formed arguments exactly one boundary call is issued — the request
/// carrying the four fields verbatim, appended after every earlier call —
/// and the result is `Ok(true)` iff the host's status for that call is the
/// success value, `Ok(false)` for every other status.
pub fn host_call_raw(host: &mut StubHost, args: RawCallArgs) -> (r: Result<bool, BridgeError>)
    requires
        args_wf(args) ==> old(host).calls@.len() < old(host).statuses@.len(),
    ensures
        !args_wf(args) ==> {
            &&& r == Err::<bool, BridgeError>(BridgeError::InvalidCallInput)
            &&& *final(host) == *old(host)
        },
        args_wf(args) ==> {
            &&& final(host).calls@.len() == old(host).calls@.len() + 1
            &&& final(host).calls@.last()@ == args_model(args)
            &&& forall|i: int|
                0 <= i < old(host).calls@.len() ==> final(host).calls@[i] == old(host).calls@[i]
            &&& final(host).statuses == old(host).statuses
            &&& r == Ok::<bool, BridgeError>(
                raw_verdict(old(host).statuses@[old(host).calls@.len() as int]),
            )
        },
{
    match validate_call_args(args) {
        Ok(req) => {
            let status = host.dispatch_raw(req);
            Ok(resolve_raw_status(status))
        },
        Err(e) => Err(e),
    }
}

/// One complete `__hostCall` through the interface adapter, against the same
/// observing dispatcher.
///
/// Identical rejection and single-call behaviour as `host_call_raw`; the
/// only difference is the lowering, so the boolean is read off the typed
/// result that the host's status denotes.
pub fn host_call_interface(host: &mut StubHost, args: RawCallArgs) -> (r: Result<
    bool,
    BridgeError,
>)
    requires
        args_wf(args) ==> old(host).calls@.len() < old(host).statuses@.len(),
    ensures
        !args_wf(args) ==> {
            &&& r == Err::<bool, BridgeError>(BridgeError::InvalidCallInput)
            &&& *final(host) == *old(host)
        },
        args_wf(args) ==> {
            &&& final(host).calls@.len() == old(host).calls@.len() + 1
            &&& final(host).calls@.last()@ == args_model(args)
            &&& forall|i: int|
                0 <= i < old(host).calls@.len() ==> final(host).calls@[i] == old(host).calls@[i]
            &&& final(host).statuses == old(host).statuses
            &&& r == Ok::<bool, BridgeError>(
                interface_verdict(
                    interface_result_of(old(host).statuses@[old(host).calls@.len() as int]),
                ),
            )
        },
{
    match validate_call_args(args) {
        Ok(req) => {
            let res = host.dispatch_interface(req);
            Ok(resolve_interface_result(res))
        },
        Err(e) => Err(e),
    }
}

/// Adapter equivalence: for every host status, the verdict the interface
/// adapter reads off the typed result of that status equals the verdict the
/// raw adapter reads off the status word itself. The choice of lowering
/// never changes the boolean the script observes.
pub proof fn lemma_adapters_agree(status: usize)
    ensures
        interface_verdict(interface_result_of(status)) == raw_verdict(status),
{
}

/// Call ordering: issuing two boundary calls in sequence appends them to the
/// observed record at consecutive positions, first then second, leaving
/// every earlier record in place — strict program order, no overlap, no
/// reordering.
pub proof fn lemma_sequential_calls_in_order(
    trace: Seq<HostCallRequest>,
    first: HostCallRequest,
    second: HostCallRequest,
)
    ensures
        trace.push(first).push(second).len() == trace.len() + 2,
        trace.push(first).push(second)[trace.len() as int] == first,
        trace.push(first).push(second)[trace.len() as int + 1] == second,
        forall|i: int| 0 <= i < trace.len() ==> trace.push(first).push(second)[i] == trace[i],
{
}

} // verus!

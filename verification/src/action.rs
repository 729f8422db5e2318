//! The `policyAction` entry point.
//!
//! The host launches the sandboxed module with exactly two invocation
//! arguments: the program identity (index 0, ignored) and the policy action
//! name (index 1). Any other count is a malformed invocation — a host
//! misconfiguration — and the read fails with the bridge's generic signal
//! rather than crashing. This is a single evaluation; nothing retries it.

use vstd::prelude::*;

use crate::error::BridgeError;

verus! {

/// Reads the policy action name out of the process invocation arguments.
///
/// Returns the string at index 1 verbatim exactly when the argument list has
/// two entries; fails with the malformed-invocation error for every other
/// count.
pub fn policy_action(args: &Vec<String>) -> (r: Result<String, BridgeError>)
    ensures
        r is Ok <==> args@.len() == 2,
        args@.len() == 2 ==> r->Ok_0@ == args@[1]@,
        args@.len() != 2 ==> r == Err::<String, BridgeError>(BridgeError::MalformedInvocation),
{
    if args.len() != 2 {
        return Err(BridgeError::MalformedInvocation);
    }
    Ok(args[1].clone())
}

} // verus!

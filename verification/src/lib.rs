//! A host-call bridge for sandboxed policy scripts.
//!
//! Policy code runs inside an isolated scripting sandbox and reaches
//! capabilities owned by an external host process only through two
//! script-visible entry points: `policyAction`, which reads the single policy
//! action name from the process invocation arguments, and `__hostCall`, which
//! marshals a four-field request (binding, namespace, operation, payload)
//! across the module/host boundary and lifts the host's status back into a
//! boolean.
//!
//! This crate holds the bridge's logic: runtime configuration flags, argument
//! validation, the lowering of a request through either of the two boundary
//! adapters (raw status-word lowering and interface-typed lowering), and the
//! mapping of the host's answer back to the script-visible result. The glue
//! that installs the globals into the sandbox runtime and performs the actual
//! foreign call lives outside the library.

pub mod action;
pub mod bridge;
pub mod config;
pub mod error;
pub mod host;
pub mod request;

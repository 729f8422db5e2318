//! Sandbox runtime configuration.
//!
//! The bridge fixes a single policy for the sandbox runtime: text encoding
//! and stream I/O are both enabled before any script executes. The flag set
//! is immutable once the runtime starts; nothing else in the system reads or
//! writes it afterwards.

use vstd::prelude::*;

verus! {

/// The feature flags handed to the sandbox runtime at initialization.
#[derive(Clone, Copy, PartialEq, Eq, Structural, Debug)]
pub struct RuntimeConfiguration {
    /// Whether the runtime exposes text-encoding support to scripts.
    pub text_encoding: bool,
    /// Whether the runtime exposes streaming I/O support to scripts.
    pub javy_stream_io: bool,
}

impl Default for RuntimeConfiguration {
    /// The neutral configuration: every optional runtime feature is off.
    fn default() -> (c: RuntimeConfiguration)
        ensures
            !c.text_encoding,
            !c.javy_stream_io,
    {
        RuntimeConfiguration { text_encoding: false, javy_stream_io: false }
    }
}

impl RuntimeConfiguration {
    /// Returns the configuration with the text-encoding flag set to
    /// `enabled`, leaving the other flag unchanged.
    pub fn text_encoding(self, enabled: bool) -> (c: RuntimeConfiguration)
        ensures
            c.text_encoding == enabled,
            c.javy_stream_io == self.javy_stream_io,
    {
        RuntimeConfiguration { text_encoding: enabled, javy_stream_io: self.javy_stream_io }
    }

    /// Returns the configuration with the stream-I/O flag set to `enabled`,
    /// leaving the other flag unchanged.
    pub fn javy_stream_io(self, enabled: bool) -> (c: RuntimeConfiguration)
        ensures
            c.javy_stream_io == enabled,
            c.text_encoding == self.text_encoding,
    {
        RuntimeConfiguration { text_encoding: self.text_encoding, javy_stream_io: enabled }
    }
}

/// Builds the configuration the bridge always runs under: text encoding and
/// stream I/O both enabled. This policy is fixed; it is not user-configurable.
pub fn config() -> (c: RuntimeConfiguration)
    ensures
        c.text_encoding,
        c.javy_stream_io,
{
    RuntimeConfiguration::default().text_encoding(true).javy_stream_io(true)
}

} // verus!

//! The host-side capability surface: a non-owning handle to the host's
//! per-call context, and the log severities the host understands.
//!
//! The handle is a plain identifier.  The host guarantees that it stays
//! stable across the calls made on one plugin instance, so copies of the
//! handle alias the same host resource; the handle itself owns nothing.

use vstd::prelude::*;

verus! {

/// A non-owning, copyable handle to the host's per-call context.
///
/// The raw value is the host's opaque pointer, carried as an integer.
/// All reads and writes through it are performed by unverified glue; the
/// verified core only stores, compares and forwards the handle.
#[derive(Clone, Copy, PartialEq, Eq, Structural, Debug)]
pub struct RainmeterContext {
    pub raw: usize,
}

impl RainmeterContext {
    /// Wrap the host's raw context value.
    pub fn new(raw: usize) -> (ctx: RainmeterContext)
        ensures
            ctx.raw == raw,
    {
        RainmeterContext { raw }
    }
}

/// Log severities accepted by the host.
#[derive(Clone, Copy, PartialEq, Eq, Structural, Debug)]
pub enum RmLogLevel {
    LogError,
    LogWarning,
    LogNotice,
    LogDebug,
}

impl RmLogLevel {
    /// The integer level the host expects for this severity.
    pub fn level_code(self) -> (code: i32)
        ensures
            code == self.spec_level_code(),
    {
        match self {
            RmLogLevel::LogError => 1,
            RmLogLevel::LogWarning => 2,
            RmLogLevel::LogNotice => 3,
            RmLogLevel::LogDebug => 4,
        }
    }

    /// Error is 1, Warning 2, Notice 3, Debug 4.
    pub open spec fn spec_level_code(self) -> i32 {
        match self {
            RmLogLevel::LogError => 1,
            RmLogLevel::LogWarning => 2,
            RmLogLevel::LogNotice => 3,
            RmLogLevel::LogDebug => 4,
        }
    }
}

/// One log line handed to the host: a severity and a message.
pub struct LogLine {
    pub level: RmLogLevel,
    pub message: String,
}

} // verus!

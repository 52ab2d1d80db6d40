//! The entry shim: the six host-callable operations, each wrapped in a
//! failure containment barrier.
//!
//! Letting a failure unwind across the foreign boundary into the host's
//! call stack would be undefined behavior, so the barrier is the one
//! contract the whole bridge stands on: when the wrapped body fails, the
//! entry point leaves the instance exactly as it was, produces exactly one
//! error-severity log line naming the entry point, and returns its safe
//! default (zero for the numeric entry, nothing for the string entry, no
//! action for the rest).  The unverified glue catches the failure itself
//! and reports it here as the failure message; the verified shim decides
//! everything that follows.

use vstd::prelude::*;
use vstd::string::*;
use crate::bridge::{
    Bridge, PluginLifecycleState, bridge_wf, spec_finalize, spec_initialize, spec_reload,
    spec_update,
};
use crate::config::{ConfigReads, LayoutCall};
use crate::host_api::{LogLine, RainmeterContext, RmLogLevel};

verus! {

/// The six foreign-callable operations.
#[derive(Clone, Copy, PartialEq, Eq, Structural, Debug)]
pub enum EntryPoint {
    Initialize,
    Reload,
    Update,
    GetString,
    ExecuteBang,
    Finalize,
}

/// The name of each entry point, as it appears in log lines.
pub open spec fn spec_entry_name(e: EntryPoint) -> Seq<char> {
    match e {
        EntryPoint::Initialize => "Initialize"@,
        EntryPoint::Reload => "Reload"@,
        EntryPoint::Update => "Update"@,
        EntryPoint::GetString => "GetString"@,
        EntryPoint::ExecuteBang => "ExecuteBang"@,
        EntryPoint::Finalize => "Finalize"@,
    }
}

/// The name of an entry point.
pub fn entry_name(e: EntryPoint) -> (name: &'static str)
    ensures
        name@ == spec_entry_name(e),
{
    match e {
        EntryPoint::Initialize => "Initialize",
        EntryPoint::Reload => "Reload",
        EntryPoint::Update => "Update",
        EntryPoint::GetString => "GetString",
        EntryPoint::ExecuteBang => "ExecuteBang",
        EntryPoint::Finalize => "Finalize",
    }
}

/// The message of the log line a contained failure produces.
pub open spec fn spec_panic_message(entry: EntryPoint, msg: Seq<char>) -> Seq<char> {
    "Panic in "@ + spec_entry_name(entry) + ": "@ + msg
}

/// The one log line a contained failure produces: error severity, naming
/// the entry point and the failure message.
pub fn panic_log_line(entry: EntryPoint, msg: &str) -> (line: LogLine)
    ensures
        line.level is LogError,
        line.message@ == spec_panic_message(entry, msg@),
{
    let mut message = String::from_str("Panic in ");
    message.append(entry_name(entry));
    message.append(": ");
    message.append(msg);
    proof {
        assert(message@ =~= spec_panic_message(entry, msg@));
    }
    LogLine { level: RmLogLevel::LogError, message }
}

/// One host call, with the values its body works on.
pub enum HostCall {
    Initialize(ConfigReads),
    Reload(ConfigReads),
    Update(RainmeterContext),
    GetString,
    ExecuteBang(String),
    Finalize,
}

/// Which entry point a call is.
pub open spec fn spec_call_entry(call: HostCall) -> EntryPoint {
    match call {
        HostCall::Initialize(_) => EntryPoint::Initialize,
        HostCall::Reload(_) => EntryPoint::Reload,
        HostCall::Update(_) => EntryPoint::Update,
        HostCall::GetString => EntryPoint::GetString,
        HostCall::ExecuteBang(_) => EntryPoint::ExecuteBang,
        HostCall::Finalize => EntryPoint::Finalize,
    }
}

/// Which entry point a call is.
pub fn call_entry(call: &HostCall) -> (entry: EntryPoint)
    ensures
        entry == spec_call_entry(*call),
{
    match call {
        HostCall::Initialize(_) => EntryPoint::Initialize,
        HostCall::Reload(_) => EntryPoint::Reload,
        HostCall::Update(_) => EntryPoint::Update,
        HostCall::GetString => EntryPoint::GetString,
        HostCall::ExecuteBang(_) => EntryPoint::ExecuteBang,
        HostCall::Finalize => EntryPoint::Finalize,
    }
}

/// When the host may make a call: Initialize only on a fresh instance, the
/// rest only between Initialize and Finalize — except that Finalize itself
/// may be repeated, since the stop signal is idempotent.  The host drives
/// entry points strictly sequentially, so this is a fact about the host,
/// not a check.
pub open spec fn spec_call_allowed(s: PluginLifecycleState, call: HostCall) -> bool {
    match call {
        HostCall::Initialize(_) => s is Uninitialized,
        HostCall::Finalize => s is Running || s is Terminated,
        _ => s is Running,
    }
}

/// What one entry point hands back to the host.
pub struct ShimResponse {
    /// The numeric value of the Update entry; zero everywhere else, and
    /// zero on any contained failure.
    pub numeric: i64,
    /// The text of the GetString entry; this plugin exposes none.
    pub text: Option<String>,
    /// The window placement call the glue should issue, if any.
    pub layout: Option<LayoutCall>,
    /// The error log line of a contained failure, and nothing otherwise.
    pub log: Option<LogLine>,
}

/// Run one host call through the containment barrier.  `failure` is the
/// failure message when the wrapped body failed (the glue catches the
/// unwind and reports it here); in that case the instance is left exactly
/// as it was, the safe default is returned, and one error log line names
/// the entry point.
pub fn shim_call(b: &mut Bridge, call: HostCall, failure: Option<String>) -> (r: ShimResponse)
    requires
        bridge_wf(old(b)@),
        spec_call_allowed(old(b)@.lifecycle, call),
    ensures
        bridge_wf(final(b)@),
        match failure {
            Some(msg) => {
                &&& final(b)@ == old(b)@
                &&& r.numeric == 0
                &&& r.text is None
                &&& r.layout is None
                &&& r.log matches Some(line) && line.level is LogError && line.message@
                    == spec_panic_message(spec_call_entry(call), msg@)
            },
            None => {
                &&& r.log is None
                &&& r.numeric == 0
                &&& match call {
                    HostCall::Initialize(reads) => final(b)@ == spec_initialize(old(b)@, reads@)
                        && r.layout is None && r.text is None,
                    HostCall::Reload(reads) => final(b)@ == spec_reload(old(b)@, reads@).0
                        && r.layout == spec_reload(old(b)@, reads@).1 && r.text is None,
                    HostCall::Update(ctx) => final(b)@ == spec_update(old(b)@, ctx).0 && r.layout
                        == spec_update(old(b)@, ctx).1 && r.text is None,
                    HostCall::GetString => final(b)@ == old(b)@ && r.layout is None && r.text
                        is None,
                    HostCall::ExecuteBang(_) => final(b)@ == old(b)@ && r.layout is None && r.text
                        is None,
                    HostCall::Finalize => final(b)@ == spec_finalize(old(b)@) && r.layout is None
                        && r.text is None,
                }
            },
        },
{
    let entry = call_entry(&call);
    match failure {
        Some(msg) => {
            let line = panic_log_line(entry, msg.as_str());
            ShimResponse { numeric: 0, text: None, layout: None, log: Some(line) }
        },
        None => match call {
            HostCall::Initialize(reads) => {
                b.initialize(reads);
                ShimResponse { numeric: 0, text: None, layout: None, log: None }
            },
            HostCall::Reload(reads) => {
                let layout = b.reload(reads);
                ShimResponse { numeric: 0, text: None, layout, log: None }
            },
            HostCall::Update(ctx) => {
                let layout = b.update(ctx);
                ShimResponse { numeric: 0, text: None, layout, log: None }
            },
            HostCall::GetString => {
                let text = b.get_string();
                ShimResponse { numeric: 0, text, layout: None, log: None }
            },
            HostCall::ExecuteBang(args) => {
                b.execute_bang(args.as_str());
                ShimResponse { numeric: 0, text: None, layout: None, log: None }
            },
            HostCall::Finalize => {
                b.finalize();
                ShimResponse { numeric: 0, text: None, layout: None, log: None }
            },
        },
    }
}

} // verus!

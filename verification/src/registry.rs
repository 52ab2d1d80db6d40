//! Process-wide registry: the most recently observed host context and
//! whether a command-channel sender is currently installed.
//!
//! Decoupled service logic raises events through this registry without
//! holding the plugin instance.  Both slots are last-writer-wins snapshots:
//! the host context is refreshed on every host update so readers always get
//! a reasonably fresh capability handle, and the sender is installed once,
//! at initialization.  The unverified glue keeps one `Registry` value at
//! process scope behind a lock.

use vstd::prelude::*;
use crate::host_api::RainmeterContext;

verus! {

/// Mathematical value of a [`Registry`].
pub struct RegistryView {
    pub host: Option<RainmeterContext>,
    pub has_sender: bool,
}

/// The registry's single snapshot: at most one live host context and at
/// most one installed command-channel sender.
pub struct Registry {
    /// Most recently observed host context, if any call observed one yet.
    pub host: Option<RainmeterContext>,
    /// A command-channel sender is installed and events can be routed.
    pub has_sender: bool,
}

impl View for Registry {
    type V = RegistryView;

    open spec fn view(&self) -> RegistryView {
        RegistryView { host: self.host, has_sender: self.has_sender }
    }
}

/// Before the first initialization nothing is registered.
pub open spec fn spec_empty_registry() -> RegistryView {
    RegistryView { host: None, has_sender: false }
}

impl Registry {
    /// The registry before the first initialization: no host context, no
    /// sender, so raised events go nowhere.
    pub fn new() -> (reg: Registry)
        ensures
            reg@ == spec_empty_registry(),
    {
        Registry { host: None, has_sender: false }
    }

    /// Record the most recent host context; the previous snapshot is
    /// dropped, no history is kept.
    pub fn set_host(&mut self, ctx: RainmeterContext)
        ensures
            final(self)@ == (RegistryView { host: Some(ctx), ..old(self)@ }),
    {
        self.host = Some(ctx);
    }
}

/// Install the command-channel sender, making raised events routable.
/// Called once, during plugin initialization.
pub fn init_global_cmd_tx(reg: &mut Registry)
    ensures
        final(reg)@ == (RegistryView { has_sender: true, ..old(reg)@ }),
{
    reg.has_sender = true;
}

/// The most recently registered host context, if any.
pub fn get_rainmeter(reg: &Registry) -> (ctx: Option<RainmeterContext>)
    ensures
        ctx == reg@.host,
{
    reg.host
}

} // verus!

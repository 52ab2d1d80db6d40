//! The bridge itself: one plugin instance, its channel set, its worker, and
//! the process registry, advanced by the host-driven calls on one side and
//! the worker's run loop on the other.
//!
//! The host thread and the worker thread share nothing but the three
//! channels and the registry, so the whole system is a state machine whose
//! transitions are the host calls (initialize, reload, update, finalize),
//! the worker's loop iterations, and event raising.  Every transition is a
//! total function: no call waits on the other thread (the unverified glue
//! runs the two sides on their own threads and performs the returned
//! actions, which is where any real waiting would live — there is none).

use vstd::prelude::*;
use crate::channel::{
    ChannelSet, ChannelSetView, spec_close_receiver, spec_fresh_channels, spec_poll_command,
    spec_poll_handshake, spec_send_command, spec_send_handshake, spec_signal_shutdown,
    lemma_commands_delivered_in_send_order,
};
use crate::command::{
    Command, CommandView, TickActions, TickActionsView, WorkerEvent, event_script,
    spec_worker_decide,
};
use crate::config::{
    ConfigReads, ConfigView, LayoutCall, PluginConfig, reposition, spec_default_config, spec_load,
    spec_layout_call,
};
use crate::events::{Event, EventRaiser, EventView, event_json, spec_event_json};
use crate::host_api::RainmeterContext;
use crate::music_player::{MusicPlayerState, MusicPlayerStateView, spec_same_state};
use crate::registry::{Registry, RegistryView, spec_empty_registry};

verus! {

/// Where the instance stands in its host-visible life.  The two transient
/// states are what the instance passes through while an initialize or
/// finalize call is running; between calls it rests in one of the other
/// three.
#[derive(Clone, Copy, PartialEq, Eq, Structural, Debug)]
pub enum PluginLifecycleState {
    Uninitialized,
    Initializing,
    Running,
    Finalizing,
    Terminated,
}

/// Mathematical value of a [`WorkerState`].
pub struct WorkerStateView {
    pub started: bool,
    pub handshake_sent: bool,
    pub exited: bool,
    pub current_url: Seq<char>,
    pub applied: Seq<CommandView>,
}

/// What the worker thread has done so far, as observed through the
/// channels: whether it was spawned, whether it has published its window
/// handle, whether it has left its run loop, where its UI runtime points,
/// and every command it has applied, in order.
pub struct WorkerState {
    pub started: bool,
    pub handshake_sent: bool,
    pub exited: bool,
    pub current_url: String,
    pub applied: Vec<Command>,
}

impl View for WorkerState {
    type V = WorkerStateView;

    open spec fn view(&self) -> WorkerStateView {
        WorkerStateView {
            started: self.started,
            handshake_sent: self.handshake_sent,
            exited: self.exited,
            current_url: self.current_url@,
            applied: self.applied@.map_values(|c: Command| c@),
        }
    }
}

/// Mathematical value of an [`OverlayMeter`].
pub struct OverlayMeterView {
    pub config: ConfigView,
    pub hwnd: Option<i64>,
}

/// The host-side instance record: the configuration last read from the
/// host, and the worker's window handle once the handshake has delivered
/// it.
pub struct OverlayMeter {
    pub config: PluginConfig,
    /// Cached window handle; `None` until the handshake is received, and
    /// never cleared or replaced after that.
    pub hwnd: Option<i64>,
}

impl View for OverlayMeter {
    type V = OverlayMeterView;

    open spec fn view(&self) -> OverlayMeterView {
        OverlayMeterView { config: self.config@, hwnd: self.hwnd }
    }
}

/// Mathematical value of a [`Bridge`].
pub struct BridgeView {
    pub meter: OverlayMeterView,
    pub channels: ChannelSetView,
    pub worker: WorkerStateView,
    pub registry: RegistryView,
    pub lifecycle: PluginLifecycleState,
    pub last_song: Option<MusicPlayerStateView>,
}

/// One plugin instance with everything it is wired to.
pub struct Bridge {
    pub meter: OverlayMeter,
    pub channels: ChannelSet,
    pub worker: WorkerState,
    pub registry: Registry,
    pub lifecycle: PluginLifecycleState,
    /// The last music player snapshot announced to the UI.
    pub last_song: Option<MusicPlayerState>,
}

impl View for Bridge {
    type V = BridgeView;

    open spec fn view(&self) -> BridgeView {
        BridgeView {
            meter: self.meter@,
            channels: self.channels@,
            worker: self.worker@,
            registry: self.registry@,
            lifecycle: self.lifecycle,
            last_song: match self.last_song {
                Some(s) => Some(s@),
                None => None,
            },
        }
    }
}

/// The bridge's well-formedness: the channel histories agree, what the
/// worker has applied is exactly what the command channel has delivered, a
/// handle can only be on the handshake channel if the worker put it there,
/// and a worker that has left its loop has closed its end.
pub open spec fn bridge_wf(b: BridgeView) -> bool {
    &&& b.channels.wf()
    &&& b.worker.applied == b.channels.delivered
    &&& !b.worker.handshake_sent ==> b.channels.handshake is None
        && !b.channels.handshake_delivered
    &&& b.worker.exited ==> !b.channels.receiver_live
}

/// The whole system before the host's first call.
pub open spec fn spec_initial_bridge() -> BridgeView {
    BridgeView {
        meter: OverlayMeterView { config: spec_default_config(), hwnd: None },
        channels: spec_fresh_channels(),
        worker: WorkerStateView {
            started: false,
            handshake_sent: false,
            exited: false,
            current_url: Seq::empty(),
            applied: Seq::empty(),
        },
        registry: spec_empty_registry(),
        lifecycle: PluginLifecycleState::Uninitialized,
        last_song: None,
    }
}

/// Initialize: read the configuration, allocate fresh channels, install the
/// command sender in the registry, and spawn the worker against the loaded
/// address.  The call returns without waiting for the worker.
pub open spec fn spec_initialize(b: BridgeView, reads: crate::config::ConfigReadsView) -> BridgeView {
    let config = spec_load(b.meter.config, reads);
    BridgeView {
        meter: OverlayMeterView { config, hwnd: None },
        channels: spec_fresh_channels(),
        worker: WorkerStateView {
            started: true,
            handshake_sent: false,
            exited: false,
            current_url: config.url,
            applied: Seq::empty(),
        },
        registry: RegistryView { has_sender: true, ..b.registry },
        lifecycle: PluginLifecycleState::Running,
        last_song: b.last_song,
    }
}

/// The worker publishes its window handle, once, before entering its loop.
pub open spec fn spec_publish_handle(b: BridgeView, hwnd: i64) -> BridgeView {
    BridgeView {
        channels: spec_send_handshake(b.channels, hwnd),
        worker: WorkerStateView { handshake_sent: true, ..b.worker },
        ..b
    }
}

/// Update: refresh the registry's host snapshot, poll the handshake once if
/// the handle is still unknown, and place the window if it is known.
pub open spec fn spec_update(b: BridgeView, ctx: RainmeterContext) -> (BridgeView, Option<
    LayoutCall,
>) {
    let (channels, hwnd) = if b.meter.hwnd is None {
        let (c, received) = spec_poll_handshake(b.channels);
        (c, if received is Some { received } else { None })
    } else {
        (b.channels, b.meter.hwnd)
    };
    let b1 = BridgeView {
        meter: OverlayMeterView { hwnd, ..b.meter },
        channels,
        registry: RegistryView { host: Some(ctx), ..b.registry },
        ..b
    };
    let layout = match hwnd {
        Some(h) => Some(spec_layout_call(h, b.meter.config)),
        None => None,
    };
    (b1, layout)
}

/// Reload: refresh the configuration, place the window if its handle is
/// known, and, exactly when the address changed, send one navigation
/// command to the worker.
pub open spec fn spec_reload(b: BridgeView, reads: crate::config::ConfigReadsView) -> (BridgeView, Option<
    LayoutCall,
>) {
    let config = spec_load(b.meter.config, reads);
    let channels = if config.url != b.meter.config.url {
        spec_send_command(b.channels, CommandView::UpdateUrl(config.url))
    } else {
        b.channels
    };
    let b1 = BridgeView {
        meter: OverlayMeterView { config, ..b.meter },
        channels,
        ..b
    };
    let layout = match b.meter.hwnd {
        Some(h) => Some(spec_layout_call(h, config)),
        None => None,
    };
    (b1, layout)
}

/// Finalize: raise the stop signal and consider the instance terminated.
/// The worker is not joined; it observes the signal on its next iteration.
pub open spec fn spec_finalize(b: BridgeView) -> BridgeView {
    BridgeView {
        channels: spec_signal_shutdown(b.channels),
        lifecycle: PluginLifecycleState::Terminated,
        ..b
    }
}

/// Raise an event: if a sender is installed, put the payload on the command
/// channel; otherwise do nothing at all.
pub open spec fn spec_raise_event(b: BridgeView, payload: Seq<char>) -> BridgeView {
    if b.registry.has_sender {
        BridgeView { channels: spec_send_command(b.channels, CommandView::Event(payload)), ..b }
    } else {
        b
    }
}

/// One worker loop iteration: a signaled shutdown exits at once, leaving
/// every pending command unapplied; otherwise the oldest pending command is
/// applied and the native event is handled.
pub open spec fn spec_worker_tick(b: BridgeView, event: WorkerEvent) -> (BridgeView, TickActionsView) {
    if b.channels.shutdown {
        (
            BridgeView {
                channels: spec_close_receiver(b.channels),
                worker: WorkerStateView { exited: true, ..b.worker },
                ..b
            },
            spec_worker_decide(true, None, event),
        )
    } else {
        let (channels, polled) = spec_poll_command(b.channels);
        let worker = match polled {
            Some(CommandView::Event(payload)) => WorkerStateView {
                applied: b.worker.applied.push(CommandView::Event(payload)),
                ..b.worker
            },
            Some(CommandView::UpdateUrl(url)) => WorkerStateView {
                current_url: url,
                applied: b.worker.applied.push(CommandView::UpdateUrl(url)),
                ..b.worker
            },
            None => b.worker,
        };
        let exited = b.worker.exited || event is CloseRequested;
        (
            BridgeView {
                channels: if exited { spec_close_receiver(channels) } else { channels },
                worker: WorkerStateView { exited, ..worker },
                ..b
            },
            spec_worker_decide(false, polled, event),
        )
    }
}

impl Bridge {
    /// The system as the host finds it before calling anything.
    pub fn new() -> (b: Bridge)
        ensures
            b@ == spec_initial_bridge(),
            bridge_wf(b@),
    {
        let b = Bridge {
            meter: OverlayMeter { config: PluginConfig::default(), hwnd: None },
            channels: ChannelSet::new(),
            worker: WorkerState {
                started: false,
                handshake_sent: false,
                exited: false,
                current_url: String::new(),
                applied: Vec::new(),
            },
            registry: Registry::new(),
            lifecycle: PluginLifecycleState::Uninitialized,
            last_song: None,
        };
        proof {
            assert(b.worker@.applied =~= Seq::<CommandView>::empty());
        }
        b
    }

    /// The host's Initialize call.
    pub fn initialize(&mut self, reads: ConfigReads)
        requires
            bridge_wf(old(self)@),
            old(self)@.lifecycle is Uninitialized,
        ensures
            final(self)@ == spec_initialize(old(self)@, reads@),
            bridge_wf(final(self)@),
    {
        self.lifecycle = PluginLifecycleState::Initializing;
        self.meter.config.load_data(reads);
        self.meter.hwnd = None;
        self.channels = ChannelSet::new();
        crate::registry::init_global_cmd_tx(&mut self.registry);
        self.worker = WorkerState {
            started: true,
            handshake_sent: false,
            exited: false,
            current_url: self.meter.config.url.clone(),
            applied: Vec::new(),
        };
        self.lifecycle = PluginLifecycleState::Running;
        proof {
            assert(self.worker@.applied =~= Seq::<CommandView>::empty());
        }
    }

    /// The worker thread, once its window exists, publishes the window
    /// handle on the handshake channel.  This happens at most once per
    /// initialization.
    pub fn worker_publish_handle(&mut self, hwnd: i64)
        requires
            bridge_wf(old(self)@),
            old(self)@.worker.started,
            !old(self)@.worker.handshake_sent,
            !old(self)@.worker.exited,
        ensures
            final(self)@ == spec_publish_handle(old(self)@, hwnd),
            bridge_wf(final(self)@),
    {
        self.channels.send_handshake(hwnd);
        self.worker.handshake_sent = true;
    }

    /// The host's Update call: refresh the registry's host snapshot, learn
    /// the window handle if the handshake has delivered it, and return the
    /// placement call to issue, if any.  The numeric value reported to the
    /// host is always zero and is supplied by the entry shim.
    pub fn update(&mut self, ctx: RainmeterContext) -> (layout: Option<LayoutCall>)
        requires
            bridge_wf(old(self)@),
            old(self)@.lifecycle is Running,
        ensures
            final(self)@ == spec_update(old(self)@, ctx).0,
            layout == spec_update(old(self)@, ctx).1,
            bridge_wf(final(self)@),
    {
        self.registry.set_host(ctx);
        if self.meter.hwnd.is_none() {
            match self.channels.poll_handshake() {
                Some(h) => {
                    self.meter.hwnd = Some(h);
                },
                None => {},
            }
        }
        reposition(self.meter.hwnd, &self.meter.config)
    }

    /// The host's Reload call: refresh the configuration, place the window
    /// if its handle is known, and send exactly one navigation command when
    /// the address changed.
    pub fn reload(&mut self, reads: ConfigReads) -> (layout: Option<LayoutCall>)
        requires
            bridge_wf(old(self)@),
            old(self)@.lifecycle is Running,
        ensures
            final(self)@ == spec_reload(old(self)@, reads@).0,
            layout == spec_reload(old(self)@, reads@).1,
            bridge_wf(final(self)@),
    {
        let old_url = self.meter.config.url.clone();
        self.meter.config.load_data(reads);
        let layout = reposition(self.meter.hwnd, &self.meter.config);
        if !(self.meter.config.url == old_url) {
            self.channels.send_command(Command::UpdateUrl(self.meter.config.url.clone()));
        }
        proof {
            crate::channel::lemma_ops_preserve_wf(
                old(self)@.channels,
                0,
                CommandView::UpdateUrl(self.meter.config.url@),
            );
        }
        layout
    }

    /// The host's Finalize call: raise the stop signal and return without
    /// waiting.  The worker may still be tearing down afterwards; it will
    /// apply nothing further.  Finalizing an already terminated instance is
    /// a no-op: the signal is idempotent and duplicate signals are harmless
    /// to the worker.
    pub fn finalize(&mut self)
        requires
            bridge_wf(old(self)@),
            old(self)@.lifecycle is Running || old(self)@.lifecycle is Terminated,
        ensures
            final(self)@ == spec_finalize(old(self)@),
            bridge_wf(final(self)@),
    {
        self.lifecycle = PluginLifecycleState::Finalizing;
        self.channels.signal_shutdown();
        self.lifecycle = PluginLifecycleState::Terminated;
    }

    /// The host's GetString call: this plugin exposes no string value.
    pub fn get_string(&mut self) -> (text: Option<String>)
        ensures
            *final(self) == *old(self),
            text is None,
    {
        None
    }

    /// The host's ExecuteBang call: this plugin accepts no bangs; the call
    /// changes nothing.
    pub fn execute_bang(&mut self, _args: &str)
        ensures
            *final(self) == *old(self),
    {
    }

    /// Raise an already-serialized event payload: silently dropped unless a
    /// sender is installed and the worker end is open.
    pub fn raise_event_payload(&mut self, payload: String)
        ensures
            final(self)@ == spec_raise_event(old(self)@, payload@),
            bridge_wf(old(self)@) ==> bridge_wf(final(self)@),
    {
        let ghost payload_view = payload@;
        if self.registry.has_sender {
            self.channels.send_command(Command::Event(payload));
        }
        proof {
            if bridge_wf(old(self)@) {
                crate::channel::lemma_ops_preserve_wf(
                    old(self)@.channels,
                    0,
                    CommandView::Event(payload_view),
                );
            }
        }
    }

    /// One iteration of the worker's run loop: poll shutdown, poll one
    /// command, handle one native event, and report the actions to carry
    /// out.  A signaled shutdown exits at once without applying anything.
    pub fn worker_tick(&mut self, event: &WorkerEvent) -> (actions: TickActions)
        requires
            bridge_wf(old(self)@),
            old(self)@.worker.started,
            !old(self)@.worker.exited,
        ensures
            final(self)@ == spec_worker_tick(old(self)@, *event).0,
            actions@ == spec_worker_tick(old(self)@, *event).1,
            bridge_wf(final(self)@),
    {
        if self.channels.poll_shutdown() {
            self.worker.exited = true;
            self.channels.close_receiver();
            return TickActions { exit: true, run_script: None, navigate: None, redraw: false };
        }
        let cmd = self.channels.poll_command();
        let mut actions = TickActions {
            exit: matches!(event, WorkerEvent::CloseRequested),
            run_script: None,
            navigate: None,
            redraw: matches!(event, WorkerEvent::RedrawRequested),
        };
        match cmd {
            Some(Command::Event(payload)) => {
                actions.run_script = Some(event_script(payload.as_str()));
                self.worker.applied.push(Command::Event(payload));
            },
            Some(Command::UpdateUrl(url)) => {
                self.worker.current_url = url.clone();
                actions.navigate = Some(url.clone());
                self.worker.applied.push(Command::UpdateUrl(url));
            },
            None => {},
        }
        if actions.exit {
            self.worker.exited = true;
            self.channels.close_receiver();
        }
        proof {
            let c0 = old(self)@.channels;
            crate::channel::lemma_ops_preserve_wf(c0, 0, CommandView::Event(Seq::empty()));
            crate::channel::lemma_ops_preserve_wf(
                spec_poll_command(c0).0,
                0,
                CommandView::Event(Seq::empty()),
            );
            assert(self.worker@.applied =~= spec_worker_tick(old(self)@, *event).0.worker.applied);
        }
        actions
    }

    /// One host-side service poll: read the fresh music player snapshot the
    /// glue obtained, and if it differs from the last announced one, raise
    /// an update event toward the UI.
    pub fn poll_updates(&mut self, current: MusicPlayerState)
        ensures
            final(self)@ == spec_poll_updates(old(self)@, current@),
            bridge_wf(old(self)@) ==> bridge_wf(final(self)@),
    {
        let host_registered = match crate::registry::get_rainmeter(&self.registry) {
            Some(_) => true,
            None => false,
        };
        let raised = crate::music_player::tick_music_player(
            &mut self.last_song,
            current,
            host_registered,
        );
        match raised {
            Some(ev) => {
                let payload = event_json(&ev);
                self.raise_event_payload(payload);
            },
            None => {},
        }
    }
}

/// One service poll at the spec level: when the snapshot changed, remember
/// it, and if a host context is registered, raise the update event.
pub open spec fn spec_poll_updates(b: BridgeView, current: MusicPlayerStateView) -> BridgeView {
    let changed = match b.last_song {
        Some(prev) => !spec_same_state(prev, current),
        None => true,
    };
    let b1 = if changed {
        BridgeView { last_song: Some(current), ..b }
    } else {
        b
    };
    if changed && b.registry.host is Some {
        spec_raise_event(b1, spec_event_json(EventView::MusicUpdate(current)))
    } else {
        b1
    }
}

/// Raise an event from anywhere: serialize it and, if a sender is
/// installed, enqueue it for the worker.  Before initialization and after
/// the worker is gone this changes nothing at all.
pub fn raise_event(bridge: &mut Bridge, event: &Event)
    ensures
        final(bridge)@ == spec_raise_event(old(bridge)@, spec_event_json(event@)),
        bridge_wf(old(bridge)@) ==> bridge_wf(final(bridge)@),
{
    let payload = event_json(event);
    bridge.raise_event_payload(payload);
}

impl EventRaiser for Bridge {
    /// The instance-based raise: same routing, and same contract, as the
    /// free function.
    fn raise_event(&mut self, event: &Event)
        ensures
            final(self)@ == spec_raise_event(old(self)@, spec_event_json(event@)),
            bridge_wf(old(self)@) ==> bridge_wf(final(self)@),
    {
        let payload = event_json(event);
        self.raise_event_payload(payload);
    }
}

/// An event raised before initialization, or any time no sender is
/// installed, has no observable effect: the whole system is unchanged, and
/// in particular no command is ever delivered to any worker.
pub proof fn lemma_raise_event_without_sender(b: BridgeView, payload: Seq<char>)
    requires
        !b.registry.has_sender,
    ensures
        spec_raise_event(b, payload) == b,
{
}

/// Commands are applied in send order, each at most once: what the worker
/// has applied is exactly the first `applied.len()` commands ever accepted
/// by the command channel, in the same order.
pub proof fn lemma_commands_applied_in_send_order(b: BridgeView)
    requires
        bridge_wf(b),
    ensures
        b.worker.applied == b.channels.sent.take(b.worker.applied.len() as int),
        forall|i: int| 0 <= i < b.worker.applied.len() ==> b.worker.applied[i] == b.channels.sent[i],
{
    lemma_commands_delivered_in_send_order(b.channels);
}

/// After Finalize, a raised event is never observed by the worker: whether
/// or not the payload still reaches the queue, the worker's next iteration
/// exits without applying it, and nothing is ever applied afterwards.
pub proof fn lemma_no_effect_after_finalize(b: BridgeView, payload: Seq<char>, event: WorkerEvent)
    requires
        b.channels.shutdown,
    ensures
        spec_raise_event(b, payload).worker.applied == b.worker.applied,
        spec_worker_tick(spec_raise_event(b, payload), event).0.worker.applied == b.worker.applied,
        spec_worker_tick(spec_raise_event(b, payload), event).0.worker.exited,
{
}

/// Reload sends a navigation command exactly when the address changed: an
/// unchanged address sends nothing at all, and a changed one adds exactly
/// one navigation command, so the worker never observes a second
/// navigation unless Reload runs again.
pub proof fn lemma_reload_navigates_exactly_on_change(
    b: BridgeView,
    reads: crate::config::ConfigReadsView,
)
    ensures
        ({
            let new_url = spec_load(b.meter.config, reads).url;
            &&& new_url == b.meter.config.url ==> spec_reload(b, reads).0.channels == b.channels
            &&& (new_url != b.meter.config.url && b.channels.receiver_live) ==> spec_reload(
                b,
                reads,
            ).0.channels.sent == b.channels.sent.push(CommandView::UpdateUrl(new_url))
        }),
{
}

/// The window handle, once learned, is never dropped or replaced: a later
/// update keeps exactly the handle the handshake delivered.
pub proof fn lemma_hwnd_cached_forever(b: BridgeView, ctx: RainmeterContext)
    requires
        b.meter.hwnd is Some,
    ensures
        spec_update(b, ctx).0.meter.hwnd == b.meter.hwnd,
        spec_update(b, ctx).1 == Some(spec_layout_call(b.meter.hwnd->0, b.meter.config)),
{
}

/// The stop signal is sticky: no transition of the system ever clears it,
/// so once Finalize has run, every later worker iteration still sees it.
pub proof fn lemma_shutdown_sticky(
    b: BridgeView,
    ctx: RainmeterContext,
    reads: crate::config::ConfigReadsView,
    payload: Seq<char>,
    hwnd: i64,
    event: WorkerEvent,
)
    requires
        b.channels.shutdown,
    ensures
        spec_publish_handle(b, hwnd).channels.shutdown,
        spec_update(b, ctx).0.channels.shutdown,
        spec_reload(b, reads).0.channels.shutdown,
        spec_finalize(b).channels.shutdown,
        spec_raise_event(b, payload).channels.shutdown,
        spec_worker_tick(b, event).0.channels.shutdown,
{
}

} // verus!

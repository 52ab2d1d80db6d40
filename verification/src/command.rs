//! Commands carried by the command channel into the worker thread, and the
//! worker's per-iteration decision rule.
//!
//! The worker's run loop is cooperative: each iteration polls the shutdown
//! channel, polls the command channel, and then handles one native window
//! event.  [`worker_decide`] is that iteration's whole decision, as a pure
//! function from what the polls found to the actions the worker performs;
//! the unverified loop only carries the actions out.

use vstd::prelude::*;
use vstd::string::*;

verus! {

/// A message for the worker thread.
#[derive(Debug)]
pub enum Command {
    /// Deliver a serialized event payload into the UI runtime as a script
    /// call.
    Event(String),
    /// Navigate the UI runtime to a new address.
    UpdateUrl(String),
}

/// Mathematical value of a [`Command`].
pub enum CommandView {
    Event(Seq<char>),
    UpdateUrl(Seq<char>),
}

impl View for Command {
    type V = CommandView;

    open spec fn view(&self) -> CommandView {
        match self {
            Command::Event(s) => CommandView::Event(s@),
            Command::UpdateUrl(s) => CommandView::UpdateUrl(s@),
        }
    }
}

/// The script that forwards one serialized event payload to the UI
/// runtime's event handler, if the page installed one.
pub open spec fn spec_event_script(payload: Seq<char>) -> Seq<char> {
    "if(window.ipcEvent)window.ipcEvent("@ + payload + ");"@
}

/// Build the script call that hands `payload` to the page's event handler.
pub fn event_script(payload: &str) -> (script: String)
    ensures
        script@ == spec_event_script(payload@),
{
    let mut script = String::from_str("if(window.ipcEvent)window.ipcEvent(");
    script.append(payload);
    script.append(");");
    script
}

/// The native window events the worker's decision rule distinguishes.
pub enum WorkerEvent {
    /// The window asked to be redrawn and presented.
    RedrawRequested,
    /// The window was asked to close.
    CloseRequested,
    /// Anything else: the loop just keeps polling.
    Other,
}

/// What one worker loop iteration does, as data: leave the loop, run a
/// script in the UI runtime, navigate it, or redraw the surface.
pub struct TickActions {
    /// Leave the run loop; the thread then releases all UI-owned resources.
    pub exit: bool,
    /// Script to evaluate in the UI runtime.
    pub run_script: Option<String>,
    /// Address to navigate the UI runtime to.
    pub navigate: Option<String>,
    /// Resize and present the render surface.
    pub redraw: bool,
}

/// Mathematical value of a [`TickActions`].
pub struct TickActionsView {
    pub exit: bool,
    pub run_script: Option<Seq<char>>,
    pub navigate: Option<Seq<char>>,
    pub redraw: bool,
}

impl View for TickActions {
    type V = TickActionsView;

    open spec fn view(&self) -> TickActionsView {
        TickActionsView {
            exit: self.exit,
            run_script: match self.run_script {
                Some(s) => Some(s@),
                None => None,
            },
            navigate: match self.navigate {
                Some(s) => Some(s@),
                None => None,
            },
            redraw: self.redraw,
        }
    }
}

/// The worker's decision for one loop iteration, over what the two polls
/// and the event queue produced.  A signaled shutdown wins outright: the
/// iteration exits without touching the pending command or the event.
pub open spec fn spec_worker_decide(
    shutdown: bool,
    command: Option<CommandView>,
    event: WorkerEvent,
) -> TickActionsView {
    if shutdown {
        TickActionsView { exit: true, run_script: None, navigate: None, redraw: false }
    } else {
        TickActionsView {
            exit: event is CloseRequested,
            run_script: match command {
                Some(CommandView::Event(payload)) => Some(spec_event_script(payload)),
                _ => None,
            },
            navigate: match command {
                Some(CommandView::UpdateUrl(url)) => Some(url),
                _ => None,
            },
            redraw: event is RedrawRequested,
        }
    }
}

/// Decide one worker loop iteration: `shutdown` and `command` are what the
/// non-blocking polls of the shutdown and command channels returned, and
/// `event` is the native window event being processed.
pub fn worker_decide(shutdown: bool, command: Option<Command>, event: &WorkerEvent) -> (actions:
    TickActions)
    ensures
        actions@ == spec_worker_decide(
            shutdown,
            match command {
                Some(c) => Some(c@),
                None => None,
            },
            *event,
        ),
{
    if shutdown {
        return TickActions { exit: true, run_script: None, navigate: None, redraw: false };
    }
    let (run_script, navigate) = match command {
        Some(Command::Event(payload)) => (Some(event_script(payload.as_str())), None),
        Some(Command::UpdateUrl(url)) => (None, Some(url)),
        None => (None, None),
    };
    TickActions {
        exit: matches!(event, WorkerEvent::CloseRequested),
        run_script,
        navigate,
        redraw: matches!(event, WorkerEvent::RedrawRequested),
    }
}

} // verus!

//! The three queues that connect the host thread and the worker thread for
//! one plugin instance: handshake (worker to host, one window handle, ever),
//! command (any producer to worker), and shutdown (host to worker, a single
//! sticky stop signal).
//!
//! All receives are non-blocking polls and all sends are non-blocking.  The
//! command queue keeps two ghost histories: every command it ever accepted
//! (`sent`) and every command the worker ever took out (`delivered`).  The
//! well-formedness invariant ties them together and yields the ordering
//! guarantee: commands are delivered in send order, each at most once.

use vstd::prelude::*;
use crate::command::{Command, CommandView};

verus! {

/// Mathematical value of a [`ChannelSet`].
pub struct ChannelSetView {
    /// Window handle sent by the worker and not yet received by the host.
    pub handshake: Option<i64>,
    /// The host has already received the handle once.
    pub handshake_delivered: bool,
    /// Commands accepted and not yet taken out, oldest first.
    pub commands: Seq<CommandView>,
    /// Every command the queue ever accepted, in acceptance order.
    pub sent: Seq<CommandView>,
    /// Every command the worker ever took out, in delivery order.
    pub delivered: Seq<CommandView>,
    /// The stop signal has been raised.
    pub shutdown: bool,
    /// The worker end is still open; sends to a closed end are ignored.
    pub receiver_live: bool,
}

impl ChannelSetView {
    /// Everything ever accepted is what was delivered followed by what is
    /// still pending.
    pub open spec fn wf(self) -> bool {
        self.sent == self.delivered + self.commands
    }
}

/// The channel endpoints of one plugin instance.
pub struct ChannelSet {
    pub handshake: Option<i64>,
    pub handshake_delivered: bool,
    pub commands: Vec<Command>,
    pub sent: Ghost<Seq<CommandView>>,
    pub delivered: Ghost<Seq<CommandView>>,
    pub shutdown: bool,
    pub receiver_live: bool,
}

impl View for ChannelSet {
    type V = ChannelSetView;

    open spec fn view(&self) -> ChannelSetView {
        ChannelSetView {
            handshake: self.handshake,
            handshake_delivered: self.handshake_delivered,
            commands: self.commands@.map_values(|c: Command| c@),
            sent: self.sent@,
            delivered: self.delivered@,
            shutdown: self.shutdown,
            receiver_live: self.receiver_live,
        }
    }
}

/// A fresh channel set: nothing pending, nothing delivered, both ends open.
pub open spec fn spec_fresh_channels() -> ChannelSetView {
    ChannelSetView {
        handshake: None,
        handshake_delivered: false,
        commands: Seq::empty(),
        sent: Seq::empty(),
        delivered: Seq::empty(),
        shutdown: false,
        receiver_live: true,
    }
}

/// The worker puts its window handle on the handshake channel.
pub open spec fn spec_send_handshake(c: ChannelSetView, hwnd: i64) -> ChannelSetView {
    ChannelSetView { handshake: Some(hwnd), ..c }
}

/// The host polls the handshake channel.  The first poll that finds the
/// handle takes it; every poll after that finds nothing.
pub open spec fn spec_poll_handshake(c: ChannelSetView) -> (ChannelSetView, Option<i64>) {
    if c.handshake_delivered {
        (c, None)
    } else {
        match c.handshake {
            Some(h) => (ChannelSetView { handshake: None, handshake_delivered: true, ..c }, Some(h)),
            None => (c, None),
        }
    }
}

/// A producer puts a command on the command channel.  If the worker end is
/// gone the send is ignored; there is no error and no retry.
pub open spec fn spec_send_command(c: ChannelSetView, cmd: CommandView) -> ChannelSetView {
    if c.receiver_live {
        ChannelSetView { commands: c.commands.push(cmd), sent: c.sent.push(cmd), ..c }
    } else {
        c
    }
}

/// The worker polls the command channel, taking the oldest pending command.
pub open spec fn spec_poll_command(c: ChannelSetView) -> (ChannelSetView, Option<CommandView>) {
    if c.commands.len() > 0 {
        (
            ChannelSetView {
                commands: c.commands.drop_first(),
                delivered: c.delivered.push(c.commands.first()),
                ..c
            },
            Some(c.commands.first()),
        )
    } else {
        (c, None)
    }
}

/// The host raises the stop signal; raising it twice changes nothing.
pub open spec fn spec_signal_shutdown(c: ChannelSetView) -> ChannelSetView {
    ChannelSetView { shutdown: true, ..c }
}

/// The worker end closes when the worker leaves its run loop.
pub open spec fn spec_close_receiver(c: ChannelSetView) -> ChannelSetView {
    ChannelSetView { receiver_live: false, ..c }
}

impl ChannelSet {
    /// Allocate the three queues for a new instance.
    pub fn new() -> (c: ChannelSet)
        ensures
            c@ == spec_fresh_channels(),
            c@.wf(),
    {
        let c = ChannelSet {
            handshake: None,
            handshake_delivered: false,
            commands: Vec::new(),
            sent: Ghost(Seq::empty()),
            delivered: Ghost(Seq::empty()),
            shutdown: false,
            receiver_live: true,
        };
        proof {
            assert(c@.commands =~= Seq::<CommandView>::empty());
            assert(c@.sent =~= c@.delivered + c@.commands);
        }
        c
    }

    /// Worker side: publish the window handle.  The worker does this once,
    /// right after the window exists, before entering its run loop.
    pub fn send_handshake(&mut self, hwnd: i64)
        requires
            old(self)@.handshake is None,
            !old(self)@.handshake_delivered,
        ensures
            final(self)@ == spec_send_handshake(old(self)@, hwnd),
    {
        self.handshake = Some(hwnd);
    }

    /// Host side: poll for the window handle without blocking.
    pub fn poll_handshake(&mut self) -> (received: Option<i64>)
        ensures
            final(self)@ == spec_poll_handshake(old(self)@).0,
            received == spec_poll_handshake(old(self)@).1,
            received is Some ==> final(self)@.handshake_delivered,
    {
        if self.handshake_delivered {
            None
        } else {
            match self.handshake {
                Some(h) => {
                    self.handshake = None;
                    self.handshake_delivered = true;
                    Some(h)
                },
                None => None,
            }
        }
    }

    /// Any producer: put a command on the command channel without blocking.
    /// If the worker end is closed the command is silently dropped.
    pub fn send_command(&mut self, cmd: Command)
        ensures
            final(self)@ == spec_send_command(old(self)@, cmd@),
    {
        if self.receiver_live {
            let ghost cmd_view = cmd@;
            self.commands.push(cmd);
            proof {
                self.sent@ = self.sent@.push(cmd_view);
                assert(self@.commands =~= old(self)@.commands.push(cmd_view));
            }
        }
    }

    /// Worker side: take the oldest pending command, without blocking.
    pub fn poll_command(&mut self) -> (received: Option<Command>)
        ensures
            final(self)@ == spec_poll_command(old(self)@).0,
            match received {
                Some(cmd) => spec_poll_command(old(self)@).1 == Some(cmd@),
                None => spec_poll_command(old(self)@).1 is None,
            },
    {
        if self.commands.len() > 0 {
            let cmd = self.commands.remove(0);
            proof {
                self.delivered@ = self.delivered@.push(cmd@);
                assert(self@.commands =~= old(self)@.commands.drop_first());
            }
            Some(cmd)
        } else {
            None
        }
    }

    /// Host side: raise the stop signal.  Best effort and idempotent; the
    /// worker is never joined.
    pub fn signal_shutdown(&mut self)
        ensures
            final(self)@ == spec_signal_shutdown(old(self)@),
    {
        self.shutdown = true;
    }

    /// Worker side: has the stop signal been raised?
    pub fn poll_shutdown(&self) -> (signaled: bool)
        ensures
            signaled == self@.shutdown,
    {
        self.shutdown
    }

    /// Worker side: the run loop is over; further sends will be dropped.
    pub fn close_receiver(&mut self)
        ensures
            final(self)@ == spec_close_receiver(old(self)@),
    {
        self.receiver_live = false;
    }

    /// How many commands are pending.
    pub fn pending_commands(&self) -> (n: usize)
        ensures
            n == self@.commands.len(),
    {
        self.commands.len()
    }

    /// Whether the worker end is still open.
    pub fn receiver_live(&self) -> (live: bool)
        ensures
            live == self@.receiver_live,
    {
        self.receiver_live
    }
}

/// Every operation keeps the command queue well formed.
pub proof fn lemma_ops_preserve_wf(c: ChannelSetView, hwnd: i64, cmd: CommandView)
    requires
        c.wf(),
    ensures
        spec_send_handshake(c, hwnd).wf(),
        spec_poll_handshake(c).0.wf(),
        spec_send_command(c, cmd).wf(),
        spec_poll_command(c).0.wf(),
        spec_signal_shutdown(c).wf(),
        spec_close_receiver(c).wf(),
{
    assert(spec_send_command(c, cmd).wf()) by {
        if c.receiver_live {
            assert(c.sent.push(cmd) =~= c.delivered + c.commands.push(cmd));
        }
    }
    assert(spec_poll_command(c).0.wf()) by {
        if c.commands.len() > 0 {
            assert(c.sent =~= c.delivered.push(c.commands.first()) + c.commands.drop_first());
        }
    }
}

/// The handshake handle is received at most once: a poll that comes after a
/// successful poll finds nothing, whatever happened in between on the other
/// queues.
pub proof fn lemma_handshake_delivered_once(c: ChannelSetView)
    ensures
        spec_poll_handshake(c).1 is Some ==> spec_poll_handshake(spec_poll_handshake(c).0).1
            is None,
        c.handshake_delivered ==> spec_poll_handshake(c) == (c, None::<i64>),
{
}

/// Commands leave the queue in the order they were accepted, each at most
/// once: what has been delivered is exactly the first `delivered.len()`
/// commands ever sent, in the same order.
pub proof fn lemma_commands_delivered_in_send_order(c: ChannelSetView)
    requires
        c.wf(),
    ensures
        c.delivered == c.sent.take(c.delivered.len() as int),
        forall|i: int| 0 <= i < c.delivered.len() ==> c.delivered[i] == c.sent[i],
{
    assert(c.delivered =~= c.sent.take(c.delivered.len() as int));
}

} // verus!

//! The per-node link supervisor: a state machine over the events its
//! supervising loop reacts to — the retry signal, the outcome of a
//! connection attempt, the end of the received stream, and the stop signal.
//! The caller runs the loop and performs the returned actions; every
//! decision is taken here.

use vstd::prelude::*;

use crate::envelope::{decode, decode_spec, encode, encoded, DecodeOutcome, WingsMessage};

verus! {

/// The notification sent to the update broadcaster on a connectivity
/// transition — never on a failed retry attempt.
#[derive(PartialEq, Eq, Structural, Clone, Copy, Debug)]
pub enum UpdateMessage {
    Nodes,
}

/// Why an operation on a link was refused.
#[derive(PartialEq, Eq, Structural, Clone, Copy, Debug)]
pub enum LinkError {
    /// A send was requested while no live socket is held; nothing is queued
    /// or buffered.
    NotConnected,
}

/// Where the supervising loop of a link stands.
#[derive(PartialEq, Eq, Structural, Clone, Copy, Debug)]
pub enum LinkPhase {
    /// Waiting on the stop and retry signals.
    Waiting,
    /// A connection attempt is in flight.
    Dialing,
    /// Stopped for good: explicit and terminal.
    Stopped,
}

/// An event the supervising loop reacts to.
#[derive(PartialEq, Eq, Structural, Clone, Copy, Debug)]
pub enum LinkEvent {
    /// The retry signal fired: once on creation, immediately after a lost
    /// stream, and after the fixed backoff that follows a failed attempt.
    Retry,
    /// The connection attempt produced an authenticated socket.
    DialOk,
    /// The connection attempt failed: transport or authentication.
    DialErr,
    /// The receiver task saw the stream end or an explicit close frame.
    StreamClosed,
    /// The stop signal: disconnect was requested or the supervisor is being
    /// destroyed.
    Stop,
}

/// What the caller of `step` must carry out.
#[derive(PartialEq, Eq, Structural, Clone, Copy, Debug)]
pub struct StepActions {
    /// Notify the update broadcaster of a connectivity change.
    pub notify: bool,
    /// Start a connection attempt against the link's URL, reporting its
    /// outcome as `DialOk` or `DialErr`.
    pub dial: bool,
    /// Spawn the receiver task on the read half of the new socket.
    pub spawn_receiver: bool,
    /// Fire the retry signal again after the fixed backoff delay.
    pub schedule_retry: bool,
    /// Fire the retry signal immediately.
    pub retry_now: bool,
    /// Abort the receiver task and the supervising task.
    pub abort_tasks: bool,
}

/// The supervisor of one node link: it owns the current socket state and
/// the decisions of the reconnect loop. The socket and the tasks themselves
/// live with the caller, which mirrors `connected` and `receiver_active`.
pub struct WingsConnection {
    /// The connection URL the supervisor dials.
    pub url: String,
    /// The node's shared secret, used by the handshake.
    pub token: String,
    pub phase: LinkPhase,
    /// Whether a send half is currently held: exactly `is_connected`.
    pub connected: bool,
    /// Whether a receiver task is currently running.
    pub receiver_active: bool,
}

/// No actions at all.
pub open spec fn no_actions() -> StepActions {
    StepActions {
        notify: false,
        dial: false,
        spawn_receiver: false,
        schedule_retry: false,
        retry_now: false,
        abort_tasks: false,
    }
}

/// The transition relation of the supervising loop. Events that cannot
/// occur in a phase (an attempt outcome while none is in flight, a stream
/// loss while no receiver runs) leave the state unchanged; the stopped
/// phase ignores everything.
pub open spec fn step_spec(s: WingsConnection, e: LinkEvent) -> (WingsConnection, StepActions) {
    if s.phase is Stopped {
        (s, no_actions())
    } else if e is Stop {
        (
            WingsConnection { phase: LinkPhase::Stopped, connected: false, receiver_active: false, ..s },
            StepActions { abort_tasks: true, ..no_actions() },
        )
    } else if s.phase is Waiting && e is Retry {
        (
            WingsConnection { phase: LinkPhase::Dialing, connected: false, receiver_active: false, ..s },
            StepActions { notify: s.connected, dial: true, ..no_actions() },
        )
    } else if s.phase is Waiting && e is StreamClosed {
        (
            WingsConnection { receiver_active: false, ..s },
            StepActions { retry_now: s.receiver_active, ..no_actions() },
        )
    } else if s.phase is Dialing && e is DialOk {
        (
            WingsConnection { phase: LinkPhase::Waiting, connected: true, receiver_active: true, ..s },
            StepActions { notify: true, spawn_receiver: true, ..no_actions() },
        )
    } else if s.phase is Dialing && e is DialErr {
        (
            WingsConnection { phase: LinkPhase::Waiting, connected: false, receiver_active: false, ..s },
            StepActions { schedule_retry: true, ..no_actions() },
        )
    } else {
        (s, no_actions())
    }
}

/// The state reached by running a sequence of events from a state.
pub open spec fn run_spec(s: WingsConnection, events: Seq<LinkEvent>) -> WingsConnection
    decreases events.len(),
{
    if events.len() == 0 {
        s
    } else {
        run_spec(step_spec(s, events[0]).0, events.drop_first())
    }
}

impl WingsConnection {
    /// The supervisor's invariant: at most one receiver task, and only
    /// while a socket is held in the waiting phase; no socket while an
    /// attempt is in flight; nothing survives the stopped phase.
    pub open spec fn wf(&self) -> bool {
        &&& (self.receiver_active ==> self.connected && self.phase is Waiting)
        &&& (self.phase is Stopped ==> !self.connected && !self.receiver_active)
        &&& (self.phase is Dialing ==> !self.connected)
    }

    /// A supervisor as constructed: no socket, no receiver task, waiting on
    /// the retry signal that the caller fires once right after creation.
    pub fn new(url: String, token: String) -> (r: WingsConnection)
        ensures
            r.url == url,
            r.token == token,
            r.phase is Waiting,
            !r.connected,
            !r.receiver_active,
            r.wf(),
    {
        WingsConnection {
            url,
            token,
            phase: LinkPhase::Waiting,
            connected: false,
            receiver_active: false,
        }
    }

    /// Applies one event and returns the actions the caller must perform.
    pub fn step(&mut self, event: &LinkEvent) -> (a: StepActions)
        requires
            old(self).wf(),
        ensures
            (*final(self), a) == step_spec(*old(self), *event),
            final(self).wf(),
    {
        let none = StepActions {
            notify: false,
            dial: false,
            spawn_receiver: false,
            schedule_retry: false,
            retry_now: false,
            abort_tasks: false,
        };
        match self.phase {
            LinkPhase::Stopped => none,
            _ => match event {
                LinkEvent::Stop => {
                    self.phase = LinkPhase::Stopped;
                    self.connected = false;
                    self.receiver_active = false;
                    StepActions { abort_tasks: true, ..none }
                },
                LinkEvent::Retry => {
                    match self.phase {
                        LinkPhase::Waiting => {
                            let was_connected = self.connected;
                            self.phase = LinkPhase::Dialing;
                            self.connected = false;
                            self.receiver_active = false;
                            StepActions { notify: was_connected, dial: true, ..none }
                        },
                        _ => none,
                    }
                },
                LinkEvent::StreamClosed => {
                    match self.phase {
                        LinkPhase::Waiting => {
                            let had_receiver = self.receiver_active;
                            self.receiver_active = false;
                            StepActions { retry_now: had_receiver, ..none }
                        },
                        _ => none,
                    }
                },
                LinkEvent::DialOk => {
                    match self.phase {
                        LinkPhase::Dialing => {
                            self.phase = LinkPhase::Waiting;
                            self.connected = true;
                            self.receiver_active = true;
                            StepActions { notify: true, spawn_receiver: true, ..none }
                        },
                        _ => none,
                    }
                },
                LinkEvent::DialErr => {
                    match self.phase {
                        LinkPhase::Dialing => {
                            self.phase = LinkPhase::Waiting;
                            self.connected = false;
                            self.receiver_active = false;
                            StepActions { schedule_retry: true, ..none }
                        },
                        _ => none,
                    }
                },
            },
        }
    }

    /// True iff a send half currently exists.
    pub fn is_connected(&self) -> (r: bool)
        ensures
            r == self.connected,
    {
        self.connected
    }

    /// Serializes a message for the current socket: the encoded envelope to
    /// write on the send half. With no live socket it fails immediately —
    /// nothing is queued or buffered.
    pub fn send(&self, msg: &WingsMessage) -> (r: Result<Vec<u8>, LinkError>)
        ensures
            match r {
                Ok(frame) => self.connected && frame@ == encoded(*msg),
                Err(e) => !self.connected && e == LinkError::NotConnected,
            },
    {
        if self.connected {
            Ok(encode(msg))
        } else {
            Err(LinkError::NotConnected)
        }
    }

    /// The stop step: idempotent, and the actions abort both tasks. The
    /// caller invokes it on explicit disconnect and on destruction, so no
    /// socket or task outlives the supervisor.
    pub fn disconnect(&mut self) -> (a: StepActions)
        requires
            old(self).wf(),
        ensures
            (*final(self), a) == step_spec(*old(self), LinkEvent::Stop),
            final(self).phase is Stopped,
            !final(self).connected,
            !final(self).receiver_active,
            final(self).wf(),
    {
        let stop = LinkEvent::Stop;
        self.step(&stop)
    }
}

/// A socket frame as the receiver task sees it: the payload of a binary
/// frame, an explicit close frame, or any other frame kind.
pub enum Frame {
    Binary(Vec<u8>),
    Close,
    Other,
}

/// What the receiver task does with one incoming frame.
#[derive(PartialEq, Eq, Structural, Clone, Copy, Debug)]
pub enum FrameOutcome {
    /// A decoded message of the protocol.
    Message(WingsMessage),
    /// Dropped — an unknown or malformed payload, or an uninteresting frame
    /// kind; the connection stays open.
    Ignored,
    /// The peer closed: leave the read loop and signal a retry.
    ConnectionClosed,
}

/// The receiver task's decision for one frame: binary payloads are decoded;
/// unknown and malformed ones are dropped, never fatal to the connection; a
/// close frame ends the read loop.
pub fn handle_frame(frame: &Frame) -> (r: FrameOutcome)
    ensures
        match frame {
            Frame::Binary(b) => match decode_spec(b@) {
                DecodeOutcome::Known(m) => r == FrameOutcome::Message(m),
                DecodeOutcome::Unknown => r == FrameOutcome::Ignored,
                DecodeOutcome::Malformed => r == FrameOutcome::Ignored,
            },
            Frame::Close => r == FrameOutcome::ConnectionClosed,
            Frame::Other => r == FrameOutcome::Ignored,
        },
{
    match frame {
        Frame::Binary(b) => match decode(b.as_slice()) {
            DecodeOutcome::Known(m) => FrameOutcome::Message(m),
            DecodeOutcome::Unknown => FrameOutcome::Ignored,
            DecodeOutcome::Malformed => FrameOutcome::Ignored,
        },
        Frame::Close => FrameOutcome::ConnectionClosed,
        Frame::Other => FrameOutcome::Ignored,
    }
}

/// At most one receiver task is active per node at any time: the supervisor
/// spawns a receiver only when none is active, every step keeps the
/// invariant, and the stop step aborts the active one.
pub proof fn lemma_single_receiver(s: WingsConnection, e: LinkEvent)
    requires
        s.wf(),
    ensures
        step_spec(s, e).1.spawn_receiver ==> !s.receiver_active,
        step_spec(s, e).0.wf(),
        step_spec(s, e).1.abort_tasks ==> !step_spec(s, e).0.receiver_active,
{
}

/// A notification is emitted only on a connectivity transition of the
/// running link — never on a failed attempt, and never more than once per
/// step.
pub proof fn lemma_notify_only_on_transition(s: WingsConnection, e: LinkEvent)
    requires
        s.wf(),
    ensures
        step_spec(s, e).1.notify ==> step_spec(s, e).0.connected != s.connected,
        e is DialErr ==> !step_spec(s, e).1.notify,
{
}

/// Stopping — an explicit disconnect or the supervisor's destruction, a
/// connection attempt in flight included — leaves no socket and no receiver
/// task, and the stopped phase is terminal: no later event revives either,
/// so the link never again reports connected and a send is refused from the
/// instant the stop step returns.
pub proof fn lemma_stop_quiesces(s: WingsConnection, events: Seq<LinkEvent>)
    requires
        s.wf(),
    ensures
        ({
            let stopped = step_spec(s, LinkEvent::Stop).0;
            &&& !stopped.connected
            &&& !stopped.receiver_active
            &&& stopped.phase is Stopped
            &&& run_spec(stopped, events) == stopped
        }),
    decreases events.len(),
{
    let stopped = step_spec(s, LinkEvent::Stop).0;
    if events.len() > 0 {
        assert(step_spec(stopped, events[0]).0 == stopped);
        lemma_stop_quiesces(s, events.drop_first());
        assert(run_spec(stopped, events) == run_spec(stopped, events.drop_first()));
    }
}

} // verus!

use vstd::prelude::*;
use crate::message::Message;

verus! {

/// Why the connection task ended.
#[derive(Clone, Copy, PartialEq, Eq, Structural, Debug)]
pub enum CloseReason {
    /// The handshake could not be completed.
    ConnectFailed,
    /// The server ended the stream.
    PeerClosed,
    /// Reading or writing the socket failed.
    TransportFailed,
    /// A frame could not be decoded under the strict policy.
    DecodeFailed,
    /// Shutdown was requested and the socket was closed.
    Shutdown,
}

/// What happens to a frame that does not decode into a message.
#[derive(Clone, Copy, PartialEq, Eq, Structural, Debug)]
pub enum DecodePolicy {
    /// The frame ends the connection.
    Strict,
    /// The frame is dropped and the cycle goes on.
    Tolerant,
}

/// The phases of the connection task. While the socket is open it cycles
/// `Receiving`, `Sending`, `Checking` on a fixed interval.
#[derive(Clone, Copy, PartialEq, Eq, Structural, Debug)]
pub enum TaskState {
    Handshaking,
    /// Waiting, at most one interval, for a frame.
    Receiving,
    /// Sending everything queued for the server, in queue order.
    Sending,
    /// Looking at the shutdown flag.
    Checking,
    Closed(CloseReason),
}

/// The outcome of one bounded wait for a frame.
#[derive(Debug)]
pub enum Received {
    /// The interval elapsed first.
    Nothing,
    /// A text frame that decoded into a message.
    Message(Message),
    /// A text frame that did not decode.
    Malformed,
    /// A frame that is not text (ping, pong, binary).
    OtherFrame,
    /// The stream ended.
    Ended,
    /// The socket reported an error.
    Failed,
}

/// What the task reports back to the state machine.
#[derive(Debug)]
pub enum TaskEvent {
    Connected,
    ConnectFailed,
    Received(Received),
    /// Every queued message was sent.
    Sent,
    SendFailed,
    /// The shutdown flag, as read this cycle.
    Checked { shutdown_requested: bool },
}

/// What the task does next.
#[derive(Debug)]
pub enum TaskAction {
    /// Record that the socket is open, then wait for a frame.
    MarkRunning,
    /// Append the message to the inbound queue, then send the outbound queue.
    Deliver(Message),
    /// Go on with the phase of the new state.
    Proceed,
    /// Close the socket, acknowledge the shutdown and end.
    CloseAndAcknowledge,
    /// End the task; the socket, if any, is dropped.
    Stop,
}

/// The shape of a `TaskAction`, without its message.
#[derive(Clone, Copy, PartialEq, Eq, Structural, Debug)]
pub enum ActionKind {
    MarkRunning,
    Deliver,
    Proceed,
    CloseAndAcknowledge,
    Stop,
}

pub open spec fn kind_of(a: TaskAction) -> ActionKind {
    match a {
        TaskAction::MarkRunning => ActionKind::MarkRunning,
        TaskAction::Deliver(_) => ActionKind::Deliver,
        TaskAction::Proceed => ActionKind::Proceed,
        TaskAction::CloseAndAcknowledge => ActionKind::CloseAndAcknowledge,
        TaskAction::Stop => ActionKind::Stop,
    }
}

/// The next state and the kind of action for `event` in `state`. An event
/// that does not belong to the current phase changes nothing.
pub open spec fn transition(state: TaskState, event: TaskEvent, policy: DecodePolicy) -> (TaskState, ActionKind) {
    match (state, event) {
        (TaskState::Handshaking, TaskEvent::Connected) => (TaskState::Receiving, ActionKind::MarkRunning),
        (TaskState::Handshaking, TaskEvent::ConnectFailed) => (
            TaskState::Closed(CloseReason::ConnectFailed),
            ActionKind::Stop,
        ),
        (TaskState::Receiving, TaskEvent::Received(r)) => match r {
            Received::Nothing => (TaskState::Sending, ActionKind::Proceed),
            Received::OtherFrame => (TaskState::Sending, ActionKind::Proceed),
            Received::Message(_) => (TaskState::Sending, ActionKind::Deliver),
            Received::Malformed => match policy {
                DecodePolicy::Strict => (TaskState::Closed(CloseReason::DecodeFailed), ActionKind::Stop),
                DecodePolicy::Tolerant => (TaskState::Sending, ActionKind::Proceed),
            },
            Received::Ended => (TaskState::Closed(CloseReason::PeerClosed), ActionKind::Stop),
            Received::Failed => (TaskState::Closed(CloseReason::TransportFailed), ActionKind::Stop),
        },
        (TaskState::Sending, TaskEvent::Sent) => (TaskState::Checking, ActionKind::Proceed),
        (TaskState::Sending, TaskEvent::SendFailed) => (
            TaskState::Closed(CloseReason::TransportFailed),
            ActionKind::Stop,
        ),
        (TaskState::Checking, TaskEvent::Checked { shutdown_requested }) => if shutdown_requested {
            (TaskState::Closed(CloseReason::Shutdown), ActionKind::CloseAndAcknowledge)
        } else {
            (TaskState::Receiving, ActionKind::Proceed)
        },
        (TaskState::Closed(c), _) => (TaskState::Closed(c), ActionKind::Stop),
        (s, _) => (s, ActionKind::Proceed),
    }
}

pub open spec fn is_closed(s: TaskState) -> bool {
    s is Closed
}

/// Decides the connection task's next step. A received message comes back
/// in `Deliver`, unchanged.
pub fn step(state: TaskState, event: TaskEvent, policy: DecodePolicy) -> (r: (TaskState, TaskAction))
    ensures
        (r.0, kind_of(r.1)) == transition(state, event, policy),
        state == TaskState::Receiving ==> match event {
            TaskEvent::Received(Received::Message(m)) => r.1 == TaskAction::Deliver(m),
            _ => true,
        },
{
    match state {
        TaskState::Closed(c) => (TaskState::Closed(c), TaskAction::Stop),
        TaskState::Handshaking => match event {
            TaskEvent::Connected => (TaskState::Receiving, TaskAction::MarkRunning),
            TaskEvent::ConnectFailed => (TaskState::Closed(CloseReason::ConnectFailed), TaskAction::Stop),
            _ => (state, TaskAction::Proceed),
        },
        TaskState::Receiving => match event {
            TaskEvent::Received(r) => match r {
                Received::Nothing => (TaskState::Sending, TaskAction::Proceed),
                Received::OtherFrame => (TaskState::Sending, TaskAction::Proceed),
                Received::Message(m) => (TaskState::Sending, TaskAction::Deliver(m)),
                Received::Malformed => match policy {
                    DecodePolicy::Strict => (TaskState::Closed(CloseReason::DecodeFailed), TaskAction::Stop),
                    DecodePolicy::Tolerant => (TaskState::Sending, TaskAction::Proceed),
                },
                Received::Ended => (TaskState::Closed(CloseReason::PeerClosed), TaskAction::Stop),
                Received::Failed => (TaskState::Closed(CloseReason::TransportFailed), TaskAction::Stop),
            },
            _ => (state, TaskAction::Proceed),
        },
        TaskState::Sending => match event {
            TaskEvent::Sent => (TaskState::Checking, TaskAction::Proceed),
            TaskEvent::SendFailed => (TaskState::Closed(CloseReason::TransportFailed), TaskAction::Stop),
            _ => (state, TaskAction::Proceed),
        },
        TaskState::Checking => match event {
            TaskEvent::Checked { shutdown_requested } => if shutdown_requested {
                (TaskState::Closed(CloseReason::Shutdown), TaskAction::CloseAndAcknowledge)
            } else {
                (TaskState::Receiving, TaskAction::Proceed)
            },
            _ => (state, TaskAction::Proceed),
        },
    }
}

/// A closed task stays closed and does nothing more, and while the socket
/// is open a receive that does not end the connection is always followed by
/// the sending phase, so queued messages go out every cycle.
pub proof fn lemma_cycle_shape(state: TaskState, event: TaskEvent, policy: DecodePolicy)
    ensures
        is_closed(state) ==> transition(state, event, policy) == (state, ActionKind::Stop),
        state == TaskState::Receiving && event is Received && !is_closed(transition(state, event, policy).0)
            ==> transition(state, event, policy).0 == TaskState::Sending,
{
}

/// The two flags shared by the game loop and the connection task, and the
/// acknowledgment that the task gives once it has closed the socket.
pub struct ShutdownCoordinator {
    running: bool,
    requested: bool,
    acknowledged: bool,
}

pub ghost struct CoordinatorView {
    pub running: bool,
    pub requested: bool,
    pub acknowledged: bool,
}

/// The flags after an exit request: recorded only while the socket is open.
pub open spec fn after_request(c: CoordinatorView) -> CoordinatorView {
    if c.running {
        CoordinatorView { requested: true, ..c }
    } else {
        c
    }
}

pub open spec fn after_acknowledge(c: CoordinatorView) -> CoordinatorView {
    CoordinatorView { acknowledged: true, ..c }
}

/// An exit may proceed when the socket never opened or its closing was
/// acknowledged.
pub open spec fn exit_allowed(c: CoordinatorView) -> bool {
    !c.running || c.acknowledged
}

impl View for ShutdownCoordinator {
    type V = CoordinatorView;

    closed spec fn view(&self) -> CoordinatorView {
        CoordinatorView { running: self.running, requested: self.requested, acknowledged: self.acknowledged }
    }
}

impl ShutdownCoordinator {
    /// An acknowledgment is only given to a request.
    pub open spec fn wf(&self) -> bool {
        self@.acknowledged ==> self@.requested
    }

    pub fn new() -> (r: ShutdownCoordinator)
        ensures
            r@ == (CoordinatorView { running: false, requested: false, acknowledged: false }),
            r.wf(),
    {
        ShutdownCoordinator { running: false, requested: false, acknowledged: false }
    }

    /// The handshake succeeded: from now on an exit waits for the task.
    pub fn mark_running(&mut self)
        ensures
            final(self)@ == (CoordinatorView { running: true, ..old(self)@ }),
    {
        self.running = true;
    }

    pub fn is_running(&self) -> (r: bool)
        ensures
            r == self@.running,
    {
        self.running
    }

    /// The application wants to exit. If the socket is open the request is
    /// recorded and the caller must wait for the acknowledgment (`true`);
    /// otherwise nothing changes and the caller may exit at once (`false`).
    pub fn request_shutdown(&mut self) -> (wait: bool)
        ensures
            wait == old(self)@.running,
            final(self)@ == after_request(old(self)@),
    {
        if self.running {
            self.requested = true;
            true
        } else {
            false
        }
    }

    /// The flag the task reads at the end of each cycle.
    pub fn shutdown_requested(&self) -> (r: bool)
        ensures
            r == self@.requested,
    {
        self.requested
    }

    /// The task closed the socket in answer to a request.
    pub fn acknowledge(&mut self)
        requires
            old(self)@.requested,
        ensures
            final(self)@ == after_acknowledge(old(self)@),
    {
        self.acknowledged = true;
    }

    /// Whether an exit may proceed: the socket never opened, or its closing
    /// was acknowledged.
    pub fn may_exit(&self) -> (r: bool)
        ensures
            r == exit_allowed(self@),
    {
        !self.running || self.acknowledged
    }
}

/// Shutdown rendezvous: a request made while the socket is not open returns
/// at once and the exit may proceed. One made while it is open makes the
/// requester wait; the task's next check sees the flag and answers by closing
/// the socket and acknowledging, and then the exit may proceed.
pub proof fn lemma_shutdown_rendezvous(c: CoordinatorView, policy: DecodePolicy)
    ensures
        !c.running ==> after_request(c) == c && exit_allowed(c),
        c.running && !c.acknowledged ==> !exit_allowed(after_request(c)),
        c.running ==> transition(
            TaskState::Checking,
            TaskEvent::Checked { shutdown_requested: after_request(c).requested },
            policy,
        ) == (TaskState::Closed(CloseReason::Shutdown), ActionKind::CloseAndAcknowledge),
        exit_allowed(after_acknowledge(after_request(c))),
{
}

} // verus!

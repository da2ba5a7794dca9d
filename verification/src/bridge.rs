//! The per-connection session state machine.
//!
//! The caller owns the transport, the process and the region. It reports
//! what happened as an `Event` and carries out the `Action` that comes back.
//! A session runs through `AwaitingCode`, `Provisioning` and `Running`, and
//! always leaves through `Closing`, where teardown is ordered, to `Closed`.

use vstd::prelude::*;
use crate::layout::Frame;
use crate::message::code_payload;
use crate::message::input_payload;
use crate::message::into_code;
use crate::message::ClientMessage;
use crate::message::ClientMessageModel;
use crate::pacing::Pacer;
use crate::pacing::FRAME_INTERVAL_US;

verus! {

/// Where a session stands.
#[derive(Clone, Copy, Debug, PartialEq, Eq, Structural)]
pub enum Phase {
    /// Waiting for the one message that carries the code.
    AwaitingCode,
    /// The region and the sandbox are being set up.
    Provisioning,
    /// The multiplexing loop runs.
    Running,
    /// Teardown is ordered and not yet reported done.
    Closing,
    /// Terminal.
    Closed,
}

/// The step of setup that failed.
#[derive(Clone, Copy, Debug, PartialEq, Eq, Structural)]
pub enum SetupStage {
    /// Mapping the shared region.
    Region,
    /// Provisioning the sandbox.
    Create,
    /// Starting the process.
    Start,
}

/// Why a session left for `Closing`.
#[derive(Clone, Copy, Debug, PartialEq, Eq, Structural)]
pub enum CloseReason {
    /// The first message carried no code, or the client was gone before it.
    NoCode,
    /// Setup failed at the given stage.
    SetupFailed(SetupStage),
    /// Receiving from or sending to the client failed.
    TransportFailed,
    /// The client closed the connection.
    ClientClosed,
    /// The process ended: its output reached its end.
    ProcessExited,
    /// Reading the process's output or writing its input failed.
    ProcessIo,
    /// Every event source had ended.
    Exhausted,
}

/// One of the three things that teardown does.
#[derive(Clone, Copy, Debug, PartialEq, Eq, Structural)]
pub enum TeardownStep {
    /// Forcibly stop the process, if one was started.
    TerminateProcess,
    /// Unmap the shared region and remove its backing object.
    ReleaseRegion,
    /// Tell the isolation layer to stop the sandbox of this session.
    StopSandbox,
}

/// What the caller reports.
#[derive(Debug)]
pub enum Event {
    /// A message arrived from the client.
    Client(ClientMessage),
    /// Receiving from the client failed.
    ClientError,
    /// The client's stream ended.
    ClientEnded,
    /// Setup is complete; the loop starts at `now_us`.
    Provisioned { now_us: u64 },
    /// Setup failed.
    ProvisionFailed(SetupStage),
    /// A frame came out of the frame channel at `now_us`.
    Frame { frame: Frame, now_us: u64 },
    /// The process wrote a line.
    Output(String),
    /// The process's output reached its end.
    OutputEnded,
    /// Reading the process's output failed.
    OutputError,
    /// A send to the client failed.
    SendFailed,
    /// A write to the process's input failed.
    InputFailed,
    /// Selection found every source ended.
    Exhausted,
    /// Teardown has been carried out.
    TornDown,
}

/// What the caller is to do.
#[derive(Debug)]
pub enum Action {
    /// Nothing; go on with the next event.
    Continue,
    /// Set up the region and the sandbox for this code, then report
    /// `Provisioned` or `ProvisionFailed`.
    Provision { code: String },
    /// Send the frame to the client as a binary message.
    SendBinary(Frame),
    /// Send the line to the client as a text message.
    SendText(String),
    /// Write the bytes to the process's input.
    WriteInput(Vec<u8>),
    /// Leave the loop and carry out every step of `teardown_plan`, ignoring
    /// failures, then report `TornDown`.
    Teardown,
    /// The session is over.
    Finished,
}

/// An event with its contents as mathematical sequences.
pub enum EventModel {
    Client(ClientMessageModel),
    ClientError,
    ClientEnded,
    Provisioned { now_us: u64 },
    ProvisionFailed(SetupStage),
    Frame { frame: Seq<u8>, now_us: u64 },
    Output(Seq<char>),
    OutputEnded,
    OutputError,
    SendFailed,
    InputFailed,
    Exhausted,
    TornDown,
}

/// An action with its contents as mathematical sequences.
pub enum ActionModel {
    Continue,
    Provision { code: Seq<char> },
    SendBinary(Seq<u8>),
    SendText(Seq<char>),
    WriteInput(Seq<u8>),
    Teardown,
    Finished,
}

impl View for Event {
    type V = EventModel;

    open spec fn view(&self) -> EventModel {
        match self {
            Event::Client(message) => EventModel::Client(message@),
            Event::ClientError => EventModel::ClientError,
            Event::ClientEnded => EventModel::ClientEnded,
            Event::Provisioned { now_us } => EventModel::Provisioned { now_us: *now_us },
            Event::ProvisionFailed(stage) => EventModel::ProvisionFailed(*stage),
            Event::Frame { frame, now_us } => EventModel::Frame { frame: frame@, now_us: *now_us },
            Event::Output(line) => EventModel::Output(line@),
            Event::OutputEnded => EventModel::OutputEnded,
            Event::OutputError => EventModel::OutputError,
            Event::SendFailed => EventModel::SendFailed,
            Event::InputFailed => EventModel::InputFailed,
            Event::Exhausted => EventModel::Exhausted,
            Event::TornDown => EventModel::TornDown,
        }
    }
}

impl View for Action {
    type V = ActionModel;

    open spec fn view(&self) -> ActionModel {
        match self {
            Action::Continue => ActionModel::Continue,
            Action::Provision { code } => ActionModel::Provision { code: code@ },
            Action::SendBinary(frame) => ActionModel::SendBinary(frame@),
            Action::SendText(line) => ActionModel::SendText(line@),
            Action::WriteInput(bytes) => ActionModel::WriteInput(bytes@),
            Action::Teardown => ActionModel::Teardown,
            Action::Finished => ActionModel::Finished,
        }
    }
}

/// The decision state of one session.
#[derive(Clone, Copy, Debug, PartialEq, Eq, Structural)]
pub struct SessionBridge {
    /// Where the session stands.
    pub phase: Phase,
    /// Consumer-side pacing: time of the last frame sent to the client.
    pub pacer: Pacer,
    /// Why the session is closing; `None` until it does.
    pub reason: Option<CloseReason>,
}

/// The steps of teardown, in the order in which they are carried out.
pub open spec fn teardown_steps() -> Seq<TeardownStep> {
    seq![TeardownStep::TerminateProcess, TeardownStep::ReleaseRegion, TeardownStep::StopSandbox]
}

/// The steps that `Action::Teardown` asks for. Each is attempted whatever
/// became of the one before it.
pub fn teardown_plan() -> (plan: Vec<TeardownStep>)
    ensures
        plan@ == teardown_steps(),
{
    let mut plan: Vec<TeardownStep> = Vec::with_capacity(3);
    plan.push(TeardownStep::TerminateProcess);
    plan.push(TeardownStep::ReleaseRegion);
    plan.push(TeardownStep::StopSandbox);
    assert(plan@ =~= teardown_steps());
    plan
}

impl SessionBridge {
    /// Whether the session has not yet left for teardown.
    pub open spec fn active(self) -> bool {
        self.phase is AwaitingCode || self.phase is Provisioning || self.phase is Running
    }

    /// The session in another phase.
    pub open spec fn in_phase(self, phase: Phase) -> SessionBridge {
        SessionBridge { phase, pacer: self.pacer, reason: self.reason }
    }

    /// Leaves for `Closing` and orders teardown.
    pub open spec fn closing(self, reason: CloseReason) -> (SessionBridge, ActionModel) {
        (
            SessionBridge { phase: Phase::Closing, pacer: self.pacer, reason: Some(reason) },
            ActionModel::Teardown,
        )
    }

    /// The step taken while waiting for the code: a message that carries
    /// code starts provisioning; any other message, a failure or the end of
    /// the client's stream closes the session with no process started.
    /// Events of the other sources are not messages and are passed over.
    pub open spec fn awaiting_step(self, event: EventModel) -> (SessionBridge, ActionModel) {
        match event {
            EventModel::Client(message) => match code_payload(message) {
                Some(code) => (
                    self.in_phase(Phase::Provisioning),
                    ActionModel::Provision { code },
                ),
                None => self.closing(CloseReason::NoCode),
            },
            EventModel::ClientError => self.closing(CloseReason::NoCode),
            EventModel::ClientEnded => self.closing(CloseReason::NoCode),
            EventModel::SendFailed => self.closing(CloseReason::TransportFailed),
            EventModel::ProvisionFailed(stage) => self.closing(CloseReason::SetupFailed(stage)),
            EventModel::OutputEnded => self.closing(CloseReason::ProcessExited),
            EventModel::OutputError => self.closing(CloseReason::ProcessIo),
            EventModel::InputFailed => self.closing(CloseReason::ProcessIo),
            EventModel::Exhausted => self.closing(CloseReason::Exhausted),
            _ => (self, ActionModel::Continue),
        }
    }

    /// The step taken during setup: success enters the loop with the pacing
    /// clock started, any failure closes the session.
    pub open spec fn provisioning_step(self, event: EventModel) -> (SessionBridge, ActionModel) {
        match event {
            EventModel::Provisioned { now_us } => (
                SessionBridge {
                    phase: Phase::Running,
                    pacer: Pacer { interval_us: self.pacer.interval_us, last_us: now_us },
                    reason: self.reason,
                },
                ActionModel::Continue,
            ),
            EventModel::ProvisionFailed(stage) => self.closing(CloseReason::SetupFailed(stage)),
            EventModel::Client(ClientMessageModel::Close) => self.closing(
                CloseReason::ClientClosed,
            ),
            EventModel::ClientError => self.closing(CloseReason::TransportFailed),
            EventModel::ClientEnded => self.closing(CloseReason::ClientClosed),
            EventModel::SendFailed => self.closing(CloseReason::TransportFailed),
            EventModel::OutputEnded => self.closing(CloseReason::ProcessExited),
            EventModel::OutputError => self.closing(CloseReason::ProcessIo),
            EventModel::InputFailed => self.closing(CloseReason::ProcessIo),
            EventModel::Exhausted => self.closing(CloseReason::Exhausted),
            _ => (self, ActionModel::Continue),
        }
    }

    /// The step taken in the loop.
    ///
    /// A frame goes to the client when a full interval has passed since the
    /// last one sent, and the time is recorded; otherwise it is consumed and
    /// dropped. A line of output goes to the client as text. A text or binary
    /// message goes to the process's input as bytes; a close signal ends the
    /// loop and other kinds are passed over. Every failure, the end of the
    /// process's output, the end of the client's stream and the end of all
    /// sources end the loop.
    pub open spec fn running_step(self, event: EventModel) -> (SessionBridge, ActionModel) {
        match event {
            EventModel::Frame { frame, now_us } => if self.pacer.due_at(now_us) {
                (
                    SessionBridge {
                        phase: self.phase,
                        pacer: self.pacer.marked(now_us),
                        reason: self.reason,
                    },
                    ActionModel::SendBinary(frame),
                )
            } else {
                (self, ActionModel::Continue)
            },
            EventModel::Output(line) => (self, ActionModel::SendText(line)),
            EventModel::Client(message) => match message {
                ClientMessageModel::Close => self.closing(CloseReason::ClientClosed),
                ClientMessageModel::Other => (self, ActionModel::Continue),
                _ => (self, ActionModel::WriteInput(input_payload(message).unwrap())),
            },
            EventModel::ClientError => self.closing(CloseReason::TransportFailed),
            EventModel::ClientEnded => self.closing(CloseReason::ClientClosed),
            EventModel::SendFailed => self.closing(CloseReason::TransportFailed),
            EventModel::ProvisionFailed(stage) => self.closing(CloseReason::SetupFailed(stage)),
            EventModel::OutputEnded => self.closing(CloseReason::ProcessExited),
            EventModel::OutputError => self.closing(CloseReason::ProcessIo),
            EventModel::InputFailed => self.closing(CloseReason::ProcessIo),
            EventModel::Exhausted => self.closing(CloseReason::Exhausted),
            _ => (self, ActionModel::Continue),
        }
    }

    /// The session after `event`, and what the caller is to do.
    ///
    /// In `Closing` the only event that counts is the report that teardown
    /// was carried out; until then teardown stays ordered. `Closed` is final.
    pub open spec fn transition(self, event: EventModel) -> (SessionBridge, ActionModel) {
        match self.phase {
            Phase::AwaitingCode => self.awaiting_step(event),
            Phase::Provisioning => self.provisioning_step(event),
            Phase::Running => self.running_step(event),
            Phase::Closing => if event is TornDown {
                (self.in_phase(Phase::Closed), ActionModel::Finished)
            } else {
                (self, ActionModel::Teardown)
            },
            Phase::Closed => (self, ActionModel::Finished),
        }
    }

    /// A session that waits for its code, pacing frames at `interval_us`.
    pub fn new(interval_us: u64) -> (bridge: SessionBridge)
        ensures
            bridge == (SessionBridge {
                phase: Phase::AwaitingCode,
                pacer: Pacer { interval_us, last_us: 0 },
                reason: None,
            }),
    {
        SessionBridge {
            phase: Phase::AwaitingCode,
            pacer: Pacer::new(interval_us, 0),
            reason: None,
        }
    }

    /// A session that waits for its code, pacing frames at the target rate.
    pub fn at_target_rate() -> (bridge: SessionBridge)
        ensures
            bridge == (SessionBridge {
                phase: Phase::AwaitingCode,
                pacer: Pacer { interval_us: FRAME_INTERVAL_US, last_us: 0 },
                reason: None,
            }),
    {
        SessionBridge::new(FRAME_INTERVAL_US)
    }

    fn close(&mut self, reason: CloseReason) -> (action: Action)
        ensures
            (*final(self), action@) == old(self).closing(reason),
    {
        self.phase = Phase::Closing;
        self.reason = Some(reason);
        Action::Teardown
    }

    fn step_awaiting(&mut self, event: Event) -> (action: Action)
        ensures
            (*final(self), action@) == old(self).awaiting_step(event@),
    {
        match event {
            Event::Client(message) => match into_code(message) {
                Some(code) => {
                    self.phase = Phase::Provisioning;
                    Action::Provision { code }
                },
                None => self.close(CloseReason::NoCode),
            },
            Event::ClientError => self.close(CloseReason::NoCode),
            Event::ClientEnded => self.close(CloseReason::NoCode),
            Event::SendFailed => self.close(CloseReason::TransportFailed),
            Event::ProvisionFailed(stage) => self.close(CloseReason::SetupFailed(stage)),
            Event::OutputEnded => self.close(CloseReason::ProcessExited),
            Event::OutputError => self.close(CloseReason::ProcessIo),
            Event::InputFailed => self.close(CloseReason::ProcessIo),
            Event::Exhausted => self.close(CloseReason::Exhausted),
            Event::Provisioned { .. } => Action::Continue,
            Event::Frame { .. } => Action::Continue,
            Event::Output(_) => Action::Continue,
            Event::TornDown => Action::Continue,
        }
    }

    fn step_provisioning(&mut self, event: Event) -> (action: Action)
        ensures
            (*final(self), action@) == old(self).provisioning_step(event@),
    {
        match event {
            Event::Provisioned { now_us } => {
                self.phase = Phase::Running;
                self.pacer.mark(now_us);
                Action::Continue
            },
            Event::ProvisionFailed(stage) => self.close(CloseReason::SetupFailed(stage)),
            Event::Client(ClientMessage::Close) => self.close(CloseReason::ClientClosed),
            Event::Client(_) => Action::Continue,
            Event::ClientError => self.close(CloseReason::TransportFailed),
            Event::ClientEnded => self.close(CloseReason::ClientClosed),
            Event::SendFailed => self.close(CloseReason::TransportFailed),
            Event::OutputEnded => self.close(CloseReason::ProcessExited),
            Event::OutputError => self.close(CloseReason::ProcessIo),
            Event::InputFailed => self.close(CloseReason::ProcessIo),
            Event::Exhausted => self.close(CloseReason::Exhausted),
            Event::Frame { .. } => Action::Continue,
            Event::Output(_) => Action::Continue,
            Event::TornDown => Action::Continue,
        }
    }

    fn step_running(&mut self, event: Event) -> (action: Action)
        ensures
            (*final(self), action@) == old(self).running_step(event@),
    {
        match event {
            Event::Frame { frame, now_us } => {
                if self.pacer.accept(now_us) {
                    Action::SendBinary(frame)
                } else {
                    Action::Continue
                }
            },
            Event::Output(line) => Action::SendText(line),
            Event::Client(ClientMessage::Text(text)) => Action::WriteInput(
                text.as_str().as_bytes_vec(),
            ),
            Event::Client(ClientMessage::Binary(bytes)) => Action::WriteInput(bytes),
            Event::Client(ClientMessage::Close) => self.close(CloseReason::ClientClosed),
            Event::Client(ClientMessage::Other) => Action::Continue,
            Event::ClientError => self.close(CloseReason::TransportFailed),
            Event::ClientEnded => self.close(CloseReason::ClientClosed),
            Event::SendFailed => self.close(CloseReason::TransportFailed),
            Event::ProvisionFailed(stage) => self.close(CloseReason::SetupFailed(stage)),
            Event::OutputEnded => self.close(CloseReason::ProcessExited),
            Event::OutputError => self.close(CloseReason::ProcessIo),
            Event::InputFailed => self.close(CloseReason::ProcessIo),
            Event::Exhausted => self.close(CloseReason::Exhausted),
            Event::Provisioned { .. } => Action::Continue,
            Event::TornDown => Action::Continue,
        }
    }

    /// Takes one event and says what to do.
    pub fn step(&mut self, event: Event) -> (action: Action)
        ensures
            (*final(self), action@) == old(self).transition(event@),
    {
        match self.phase {
            Phase::AwaitingCode => self.step_awaiting(event),
            Phase::Provisioning => self.step_provisioning(event),
            Phase::Running => self.step_running(event),
            Phase::Closing => match event {
                Event::TornDown => {
                    self.phase = Phase::Closed;
                    Action::Finished
                },
                _ => Action::Teardown,
            },
            Phase::Closed => Action::Finished,
        }
    }

    /// Where the session stands.
    pub fn phase(&self) -> (phase: Phase)
        ensures
            phase == self.phase,
    {
        self.phase
    }

    /// Why the session is closing, once it does.
    pub fn close_reason(&self) -> (reason: Option<CloseReason>)
        ensures
            reason == self.reason,
    {
        self.reason
    }
}

} // verus!

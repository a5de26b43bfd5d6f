//! The trace session: the life of one trace on one helper instance, as a
//! state machine from observed events to the next thing to do.

use crate::signal::Signal;
use vstd::prelude::*;

verus! {

/// What the wait primitive reported of the traced process.
#[derive(Clone, Copy, Debug, PartialEq, Eq, Structural)]
pub enum WaitOutcome {
    /// The process exited with this status code.
    Exited(i32),
    /// The process was stopped by this signal.
    StoppedBySignal(Signal),
    /// The process was resumed.
    ContinuedEvent(Signal),
    /// A trace-specific stop of this kind, with the signal that is pending.
    TraceEvent(i32, Signal),
    /// The process was killed by this signal.
    TerminatedBySignal(Signal),
    /// Anything else.
    Other,
}

/// Where a trace session stands.
#[derive(Clone, Copy, Debug, PartialEq, Eq, Structural)]
pub enum SessionState {
    /// The trace is being attached.
    Seizing,
    /// The trace is attached and the session waits for events.
    Watching,
    /// The helper exited; its exit code goes to the corrective action.
    Reporting,
    /// The helper looks after itself; the trace is being released.
    Detaching,
    /// The session is over.
    Done,
}

/// What the driver of a session observed.
#[derive(Clone, Copy, Debug, PartialEq, Eq, Structural)]
pub enum SessionEvent {
    /// The trace was attached.
    Attached,
    /// The operating system rejected the attach.
    AttachFailed,
    /// The wait primitive returned this outcome.
    Waited(WaitOutcome),
    /// The wait primitive failed.
    WaitFailed,
    /// The last command that ends a session was carried out.
    Completed,
}

/// Why a session ended without a last action of its own.
#[derive(Clone, Copy, Debug, PartialEq, Eq, Structural)]
pub enum Ending {
    /// The trace could not be attached.
    AttachFailure,
    /// Waiting failed, so the true outcome is unknown.
    WaitFailure,
    /// The helper was killed by this signal and is gone.
    TerminatedBySignal(Signal),
    /// The session had reached its end before.
    Finished,
}

/// What the driver of a session has to do next.
#[derive(Clone, Copy, Debug, PartialEq, Eq, Structural)]
pub enum Command {
    /// Attach a trace that does not stop the process.
    Seize,
    /// Block until the traced process changes state.
    Wait,
    /// Send the continue signal to the traced process, then wait.
    SendContinue,
    /// Resume the traced process through the trace, delivering this pending
    /// signal, then wait.
    Reinject(Signal),
    /// Report the unrecognized event, then wait.
    ReportUnrecognized,
    /// Run the corrective action with this exit code; the session ends.
    Babysit(i32),
    /// Release the trace; the session ends.
    Detach,
    /// Do nothing more; the session ended for this reason.
    Stop(Ending),
}

impl Command {
    /// The session goes on waiting after this command.
    pub open spec fn keeps_watching(self) -> bool {
        self == Command::Wait || self == Command::SendContinue || self
            == Command::ReportUnrecognized || self matches Command::Reinject(_)
    }

    /// Whether the session goes on waiting after this command.
    pub fn continues(self) -> (watching: bool)
        ensures
            watching == self.keeps_watching(),
    {
        match self {
            Command::Wait => true,
            Command::SendContinue => true,
            Command::ReportUnrecognized => true,
            Command::Reinject(_) => true,
            _ => false,
        }
    }
}

/// The meaning of one wait outcome while the session is watching.
pub open spec fn dispatch_spec(outcome: WaitOutcome) -> Command {
    match outcome {
        WaitOutcome::Exited(code) => Command::Babysit(code),
        WaitOutcome::TerminatedBySignal(sig) => Command::Stop(Ending::TerminatedBySignal(sig)),
        WaitOutcome::StoppedBySignal(sig) => if sig == Signal::SIGSTOP {
            Command::Wait
        } else if sig == Signal::SIGCHLD {
            Command::Detach
        } else {
            Command::SendContinue
        },
        WaitOutcome::TraceEvent(_, sig) => Command::Reinject(sig),
        WaitOutcome::ContinuedEvent(_) => Command::ReportUnrecognized,
        WaitOutcome::Other => Command::ReportUnrecognized,
    }
}

/// The state that a watching session is in once `command` was decided.
pub open spec fn state_after(command: Command) -> SessionState {
    match command {
        Command::Seize => SessionState::Seizing,
        Command::Babysit(_) => SessionState::Reporting,
        Command::Detach => SessionState::Detaching,
        Command::Stop(_) => SessionState::Done,
        _ => SessionState::Watching,
    }
}

/// One step of the session: the next state and the command for the driver.
///
/// An event that the state does not await changes nothing: the session repeats
/// the command that it waits on. Once a session reports, detaches or is done,
/// every event ends it.
pub open spec fn step_spec(state: SessionState, event: SessionEvent) -> (SessionState, Command) {
    match state {
        SessionState::Seizing => match event {
            SessionEvent::Attached => (SessionState::Watching, Command::Wait),
            SessionEvent::AttachFailed => (
                SessionState::Done,
                Command::Stop(Ending::AttachFailure),
            ),
            _ => (SessionState::Seizing, Command::Seize),
        },
        SessionState::Watching => match event {
            SessionEvent::Waited(outcome) => (
                state_after(dispatch_spec(outcome)),
                dispatch_spec(outcome),
            ),
            SessionEvent::WaitFailed => (SessionState::Done, Command::Stop(Ending::WaitFailure)),
            _ => (SessionState::Watching, Command::Wait),
        },
        _ => (SessionState::Done, Command::Stop(Ending::Finished)),
    }
}

/// Decides what one wait outcome asks of a watching session.
///
/// An exit goes to the corrective action. A kill by signal ends the session.
/// The stop that the attach itself raises is waited out; a stop by the child
/// signal means that the helper manages its own children, and the trace is
/// released; after any other stop the process is sent on its way. A trace
/// event has its pending signal delivered. Whatever else comes is reported and
/// never ends the session.
pub fn dispatch(outcome: WaitOutcome) -> (command: Command)
    ensures
        command == dispatch_spec(outcome),
{
    match outcome {
        WaitOutcome::Exited(code) => Command::Babysit(code),
        WaitOutcome::TerminatedBySignal(sig) => Command::Stop(Ending::TerminatedBySignal(sig)),
        WaitOutcome::StoppedBySignal(Signal::SIGSTOP) => Command::Wait,
        WaitOutcome::StoppedBySignal(Signal::SIGCHLD) => Command::Detach,
        WaitOutcome::StoppedBySignal(_) => Command::SendContinue,
        WaitOutcome::TraceEvent(_, sig) => Command::Reinject(sig),
        _ => Command::ReportUnrecognized,
    }
}

/// The trace on one helper instance, identified by the process identifier it
/// had when tracing began.
#[derive(Clone, Copy, Debug, PartialEq, Eq, Structural)]
pub struct TraceSession {
    pub pid: i32,
    pub state: SessionState,
}

impl TraceSession {
    /// Opens a session on the process `pid`, about to attach. There is none
    /// for an identifier that the trace primitives cannot take, one above
    /// `i32::MAX`.
    pub fn begin(pid: u32) -> (session: Option<TraceSession>)
        ensures
            session == if pid <= i32::MAX {
                Some(TraceSession { pid: pid as i32, state: SessionState::Seizing })
            } else {
                None
            },
    {
        if pid <= 0x7fff_ffff {
            Some(TraceSession { pid: pid as i32, state: SessionState::Seizing })
        } else {
            None
        }
    }

    /// Whether the session is over and the driver returns to polling.
    pub fn is_over(&self) -> (over: bool)
        ensures
            over == (self.state != SessionState::Seizing && self.state
                != SessionState::Watching),
    {
        match self.state {
            SessionState::Seizing => false,
            SessionState::Watching => false,
            _ => true,
        }
    }

    /// Takes one event and answers with the session after it and the command
    /// for the driver.
    pub fn step(self, event: SessionEvent) -> (next: (TraceSession, Command))
        ensures
            next.0.pid == self.pid,
            (next.0.state, next.1) == step_spec(self.state, event),
    {
        let (state, command) = match self.state {
            SessionState::Seizing => match event {
                SessionEvent::Attached => (SessionState::Watching, Command::Wait),
                SessionEvent::AttachFailed => (
                    SessionState::Done,
                    Command::Stop(Ending::AttachFailure),
                ),
                _ => (SessionState::Seizing, Command::Seize),
            },
            SessionState::Watching => match event {
                SessionEvent::Waited(outcome) => {
                    let command = dispatch(outcome);
                    let state = match command {
                        Command::Babysit(_) => SessionState::Reporting,
                        Command::Detach => SessionState::Detaching,
                        Command::Stop(_) => SessionState::Done,
                        _ => SessionState::Watching,
                    };
                    (state, command)
                },
                SessionEvent::WaitFailed => (
                    SessionState::Done,
                    Command::Stop(Ending::WaitFailure),
                ),
                _ => (SessionState::Watching, Command::Wait),
            },
            _ => (SessionState::Done, Command::Stop(Ending::Finished)),
        };
        (TraceSession { pid: self.pid, state }, command)
    }
}

/// The corrective action is commanded on one occasion only: a watching session
/// sees the helper exit, and the command carries the exit code.
pub proof fn lemma_babysit_only_on_exit(state: SessionState, event: SessionEvent, code: i32)
    ensures
        step_spec(state, event).1 == Command::Babysit(code) <==> state == SessionState::Watching
            && event == SessionEvent::Waited(WaitOutcome::Exited(code)),
        step_spec(state, event).0 == SessionState::Reporting <==> step_spec(state, event).1
            matches Command::Babysit(_),
{
}

/// A watching session leaves that state only on an exit, a kill by signal, a
/// stop by the child signal, or a failed wait. No other event ends it.
pub proof fn lemma_watching_ends_only_on_terminal_events(event: SessionEvent)
    ensures
        step_spec(SessionState::Watching, event).0 != SessionState::Watching <==> (event
            matches SessionEvent::Waited(WaitOutcome::Exited(_)) || event
            matches SessionEvent::Waited(WaitOutcome::TerminatedBySignal(_)) || event
            == SessionEvent::Waited(WaitOutcome::StoppedBySignal(Signal::SIGCHLD)) || event
            == SessionEvent::WaitFailed),
        step_spec(SessionState::Watching, event).0 == SessionState::Watching <==> step_spec(
            SessionState::Watching,
            event,
        ).1.keeps_watching(),
{
}

/// Once a session reports, detaches or is done, it is over for good: whatever
/// comes next, it is done and asks for nothing more. So the corrective action
/// and the detach happen at most once in a session.
pub proof fn lemma_ended_session_stays_ended(state: SessionState, event: SessionEvent)
    requires
        state != SessionState::Seizing,
        state != SessionState::Watching,
    ensures
        step_spec(state, event) == (SessionState::Done, Command::Stop(Ending::Finished)),
{
}

/// A failed attach and a failed wait end the session at once, and neither
/// calls for the corrective action.
pub proof fn lemma_failures_end_without_correction()
    ensures
        step_spec(SessionState::Seizing, SessionEvent::AttachFailed) == (
            SessionState::Done,
            Command::Stop(Ending::AttachFailure),
        ),
        step_spec(SessionState::Watching, SessionEvent::WaitFailed) == (
            SessionState::Done,
            Command::Stop(Ending::WaitFailure),
        ),
{
}

/// The trace is released on one occasion only: a watching session sees the
/// helper stopped by the child signal.
pub proof fn lemma_detach_only_on_child_stop(state: SessionState, event: SessionEvent)
    ensures
        step_spec(state, event).1 == Command::Detach <==> state == SessionState::Watching && event
            == SessionEvent::Waited(WaitOutcome::StoppedBySignal(Signal::SIGCHLD)),
        step_spec(state, event).0 == SessionState::Detaching <==> step_spec(state, event).1
            == Command::Detach,
{
}

} // verus!

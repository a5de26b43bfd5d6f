use sddm_babysit::corrective::{babysit, ExitOutcome};
use sddm_babysit::locator::{ProcessInfo, Snapshot};
use sddm_babysit::session::{
    dispatch, Command, Ending, SessionEvent, SessionState, TraceSession, WaitOutcome,
};
use sddm_babysit::signal::Signal;
use sddm_babysit::supervisor::{PollAction, Supervisor};

fn process(pid: u32, name: &str, parent: Option<u32>) -> ProcessInfo {
    ProcessInfo { pid, name: name.to_string(), parent }
}

fn watching(pid: u32) -> TraceSession {
    let session = TraceSession::begin(pid).unwrap();
    let (session, command) = session.step(SessionEvent::Attached);
    assert_eq!(command, Command::Wait);
    assert_eq!(session.state, SessionState::Watching);
    session
}

#[test]
fn begin_starts_seizing() {
    assert_eq!(
        TraceSession::begin(100),
        Some(TraceSession { pid: 100, state: SessionState::Seizing })
    );
    assert_eq!(
        TraceSession::begin(0x7fff_ffff),
        Some(TraceSession { pid: i32::MAX, state: SessionState::Seizing })
    );
}

#[test]
fn begin_refuses_identifier_beyond_range() {
    assert_eq!(TraceSession::begin(0x8000_0000), None);
    assert_eq!(TraceSession::begin(u32::MAX), None);
}

#[test]
fn clean_exit_scenario() {
    let snapshot = Snapshot::new(vec![
        process(50, "sddm", Some(1)),
        process(200, "X", Some(50)),
        process(100, "sddm-helper", Some(50)),
    ]);
    let (supervisor, action) = Supervisor::new().poll(&snapshot);
    assert_eq!(action, PollAction::Trace(100));
    assert_eq!(supervisor.last_traced, Some(100));

    let session = TraceSession::begin(100).unwrap();
    let (session, command) = session.step(SessionEvent::Attached);
    assert_eq!(command, Command::Wait);
    let (session, command) = session.step(SessionEvent::Waited(WaitOutcome::Exited(0)));
    assert_eq!(command, Command::Babysit(0));
    assert_eq!(session.state, SessionState::Reporting);
    assert!(session.is_over());

    let batch = babysit(ExitOutcome::Code(0), &snapshot);
    assert_eq!(batch.pending(), None);
    assert_eq!(batch.targets.len(), 0);

    let (session, command) = session.step(SessionEvent::Completed);
    assert_eq!(command, Command::Stop(Ending::Finished));
    assert_eq!(session.state, SessionState::Done);
}

#[test]
fn bad_exit_scenario() {
    let snapshot = Snapshot::new(vec![
        process(50, "sddm", Some(1)),
        process(100, "sddm-helper", Some(50)),
        process(200, "X", Some(50)),
    ]);
    let (_, action) = Supervisor::new().poll(&snapshot);
    assert_eq!(action, PollAction::Trace(100));

    let session = watching(100);
    let (session, command) = session.step(SessionEvent::Waited(WaitOutcome::Exited(1)));
    assert_eq!(command, Command::Babysit(1));
    assert_eq!(session.state, SessionState::Reporting);

    let mut batch = babysit(ExitOutcome::Code(1), &snapshot);
    assert_eq!(batch.targets, vec![200]);
    assert_eq!(batch.pending(), Some(200));
    batch.record(true);
    assert_eq!(batch.pending(), None);
}

#[test]
fn attach_stop_then_exit_scenario() {
    let session = watching(100);
    let (session, command) =
        session.step(SessionEvent::Waited(WaitOutcome::StoppedBySignal(Signal::SIGSTOP)));
    assert_eq!(command, Command::Wait);
    assert_eq!(session.state, SessionState::Watching);
    assert!(!session.is_over());
    let (session, command) = session.step(SessionEvent::Waited(WaitOutcome::Exited(0)));
    assert_eq!(command, Command::Babysit(0));
    assert_eq!(session.state, SessionState::Reporting);
}

#[test]
fn child_stop_detaches_scenario() {
    let session = watching(100);
    let (session, command) =
        session.step(SessionEvent::Waited(WaitOutcome::StoppedBySignal(Signal::SIGCHLD)));
    assert_eq!(command, Command::Detach);
    assert_eq!(session.state, SessionState::Detaching);
    assert!(session.is_over());
    let (session, command) = session.step(SessionEvent::Completed);
    assert_eq!(command, Command::Stop(Ending::Finished));
    assert_eq!(session.state, SessionState::Done);
    assert_eq!(session.pid, 100);
}

#[test]
fn attach_failure_ends_session() {
    let session = TraceSession::begin(100).unwrap();
    let (session, command) = session.step(SessionEvent::AttachFailed);
    assert_eq!(command, Command::Stop(Ending::AttachFailure));
    assert_eq!(session.state, SessionState::Done);
}

#[test]
fn wait_failure_ends_session_without_correction() {
    let session = watching(100);
    let (session, command) = session.step(SessionEvent::WaitFailed);
    assert_eq!(command, Command::Stop(Ending::WaitFailure));
    assert_eq!(session.state, SessionState::Done);
}

#[test]
fn kill_by_signal_ends_session() {
    let session = watching(100);
    let (session, command) =
        session.step(SessionEvent::Waited(WaitOutcome::TerminatedBySignal(Signal::SIGKILL)));
    assert_eq!(command, Command::Stop(Ending::TerminatedBySignal(Signal::SIGKILL)));
    assert_eq!(session.state, SessionState::Done);
}

#[test]
fn unrelated_stop_sends_continue() {
    let session = watching(100);
    let (session, command) =
        session.step(SessionEvent::Waited(WaitOutcome::StoppedBySignal(Signal::SIGTSTP)));
    assert_eq!(command, Command::SendContinue);
    assert_eq!(session.state, SessionState::Watching);
    assert_eq!(dispatch(WaitOutcome::StoppedBySignal(Signal::SIGUSR1)), Command::SendContinue);
    assert_eq!(dispatch(WaitOutcome::StoppedBySignal(Signal::SIGCONT)), Command::SendContinue);
}

#[test]
fn trace_event_reinjects_pending_signal() {
    let session = watching(100);
    let (session, command) =
        session.step(SessionEvent::Waited(WaitOutcome::TraceEvent(4, Signal::SIGTRAP)));
    assert_eq!(command, Command::Reinject(Signal::SIGTRAP));
    assert_eq!(session.state, SessionState::Watching);
    assert_eq!(dispatch(WaitOutcome::TraceEvent(1, Signal::SIGCHLD)), Command::Reinject(Signal::SIGCHLD));
}

#[test]
fn unrecognized_events_keep_watching() {
    let session = watching(100);
    let (session, command) = session.step(SessionEvent::Waited(WaitOutcome::Other));
    assert_eq!(command, Command::ReportUnrecognized);
    assert_eq!(session.state, SessionState::Watching);
    let (session, command) =
        session.step(SessionEvent::Waited(WaitOutcome::ContinuedEvent(Signal::SIGCONT)));
    assert_eq!(command, Command::ReportUnrecognized);
    assert_eq!(session.state, SessionState::Watching);
}

#[test]
fn dispatch_classifies_each_outcome() {
    assert_eq!(dispatch(WaitOutcome::Exited(0)), Command::Babysit(0));
    assert_eq!(dispatch(WaitOutcome::Exited(-7)), Command::Babysit(-7));
    assert_eq!(
        dispatch(WaitOutcome::TerminatedBySignal(Signal::SIGSEGV)),
        Command::Stop(Ending::TerminatedBySignal(Signal::SIGSEGV))
    );
    assert_eq!(dispatch(WaitOutcome::StoppedBySignal(Signal::SIGSTOP)), Command::Wait);
    assert_eq!(dispatch(WaitOutcome::StoppedBySignal(Signal::SIGCHLD)), Command::Detach);
    assert_eq!(dispatch(WaitOutcome::Other), Command::ReportUnrecognized);
}

#[test]
fn commands_that_continue_the_session() {
    assert!(Command::Wait.continues());
    assert!(Command::SendContinue.continues());
    assert!(Command::ReportUnrecognized.continues());
    assert!(Command::Reinject(Signal::SIGINT).continues());
    assert!(!Command::Seize.continues());
    assert!(!Command::Babysit(0).continues());
    assert!(!Command::Detach.continues());
    assert!(!Command::Stop(Ending::WaitFailure).continues());
}

#[test]
fn events_out_of_turn_change_nothing() {
    let session = TraceSession::begin(100).unwrap();
    let (session, command) = session.step(SessionEvent::Waited(WaitOutcome::Exited(1)));
    assert_eq!(command, Command::Seize);
    assert_eq!(session.state, SessionState::Seizing);
    let (session, command) = session.step(SessionEvent::WaitFailed);
    assert_eq!(command, Command::Seize);
    assert_eq!(session.state, SessionState::Seizing);

    let session = watching(100);
    let (session, command) = session.step(SessionEvent::Attached);
    assert_eq!(command, Command::Wait);
    assert_eq!(session.state, SessionState::Watching);
    let (session, command) = session.step(SessionEvent::Completed);
    assert_eq!(command, Command::Wait);
    assert_eq!(session.state, SessionState::Watching);
}

#[test]
fn finished_session_stays_finished() {
    let session = TraceSession { pid: 100, state: SessionState::Done };
    let (session, command) = session.step(SessionEvent::Waited(WaitOutcome::Exited(1)));
    assert_eq!(command, Command::Stop(Ending::Finished));
    assert_eq!(session.state, SessionState::Done);
    assert!(session.is_over());
}

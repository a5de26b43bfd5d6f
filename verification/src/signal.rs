//! Signals and their classification.

use vstd::prelude::*;

verus! {

/// A signal that the operating system can deliver to a process.
#[derive(Clone, Copy, Debug, PartialEq, Eq, Structural)]
pub enum Signal {
    SIGHUP,
    SIGINT,
    SIGQUIT,
    SIGILL,
    SIGTRAP,
    SIGABRT,
    SIGBUS,
    SIGFPE,
    SIGKILL,
    SIGUSR1,
    SIGSEGV,
    SIGUSR2,
    SIGPIPE,
    SIGALRM,
    SIGTERM,
    SIGSTKFLT,
    SIGCHLD,
    SIGCONT,
    SIGSTOP,
    SIGTSTP,
    SIGTTIN,
    SIGTTOU,
    SIGURG,
    SIGXCPU,
    SIGXFSZ,
    SIGVTALRM,
    SIGPROF,
    SIGWINCH,
    SIGIO,
    SIGPWR,
    SIGSYS,
}

/// The signals that belong to job control and tracing: child status, continue,
/// stop, the three terminal-control signals, urgent data and window resize.
/// None of them says that the receiving process is about to die.
pub open spec fn benign_signals() -> Set<Signal> {
    set![
        Signal::SIGCHLD,
        Signal::SIGCONT,
        Signal::SIGSTOP,
        Signal::SIGTSTP,
        Signal::SIGTTIN,
        Signal::SIGTTOU,
        Signal::SIGURG,
        Signal::SIGWINCH,
    ]
}

/// Whether `sig` implies that the receiving process terminates abnormally.
/// Every signal outside [`benign_signals`] is deadly.
pub fn is_signal_deadly(sig: Signal) -> (deadly: bool)
    ensures
        deadly == !benign_signals().contains(sig),
{
    match sig {
        Signal::SIGCHLD => false,
        Signal::SIGCONT => false,
        Signal::SIGSTOP => false,
        Signal::SIGTSTP => false,
        Signal::SIGTTIN => false,
        Signal::SIGTTOU => false,
        Signal::SIGURG => false,
        Signal::SIGWINCH => false,
        _ => true,
    }
}

} // verus!

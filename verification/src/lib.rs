//! Decision logic of a watchdog that supervises a display manager's helper
//! process: which processes matter, what each observed event means, and
//! when the graphical server has to be terminated so that the display
//! manager can recover.
//!
//! Everything here works on plain values. The caller owns the operating
//! system: it takes the process inventory, attaches the trace, blocks on
//! the wait primitive and delivers signals, and hands each observation to
//! this library, which answers with the next thing to do.

pub mod corrective;
pub mod locator;
pub mod session;
pub mod signal;
pub mod supervisor;

//! Intercepted signals and where they came from.
use vstd::prelude::*;

verus! {

/// A process identity as the kernel gives it.
pub type ProcessId = i32;

/// How another process sent a signal.
#[derive(Clone, Copy, Debug, PartialEq, Eq, Structural)]
pub enum SendMethod {
    /// The `kill` call.
    Kill,
    /// The `tkill` call.
    TKill,
    /// `sigqueue`.
    Queue,
    /// `mq_notify`.
    MesgQ,
}

/// What caused a signal.
#[derive(Clone, Copy, Debug, PartialEq, Eq, Structural)]
pub enum SignalCause {
    Unknown,
    /// Generated by the kernel itself (a terminal key, a hangup).
    Kernel,
    /// Sent by another process.
    Sent(SendMethod),
    /// A child process changed state.
    ChildChange,
}

/// One intercepted signal with what is known of its origin.
#[derive(Clone, Copy, Debug, PartialEq, Eq, Structural)]
pub struct SignalEvent {
    pub signal: i32,
    /// The process that caused the signal, where the kernel reports one.
    pub process: Option<ProcessId>,
    pub cause: SignalCause,
}

impl SignalEvent {
    /// The signal was explicitly sent by a process (by any means).
    pub open spec fn sent_by_process(self) -> bool {
        self.cause is Sent
    }

    pub fn is_sent_by_process(&self) -> (r: bool)
        ensures
            r == self.sent_by_process(),
    {
        match self.cause {
            SignalCause::Sent(_) => true,
            _ => false,
        }
    }
}

/// Selects one of the platform's signal numbers that the relay consumes.
pub const CHILD_STATUS: u8 = 0;

pub const CONTINUED: u8 = 1;

pub const WINDOW_CHANGE: u8 = 2;

/// The platform's number for the signal kind selected by `which`
/// (`CHILD_STATUS`, `CONTINUED` or `WINDOW_CHANGE`).
pub uninterp spec fn platform_signal(which: u8) -> i32;

/// The signal kinds that the relay consumes without forwarding: a child's
/// change of state, a continue after stop and a window-size change.
#[derive(Clone, Copy, Debug, PartialEq, Eq, Structural)]
pub struct LocalSignals {
    pub child_status: i32,
    pub continued: i32,
    pub window_change: i32,
}

impl LocalSignals {
    pub open spec fn contains(self, signal: i32) -> bool {
        signal == self.child_status || signal == self.continued || signal == self.window_change
    }

    /// The platform's numbers for the three kinds.
    pub open spec fn platform_spec() -> LocalSignals {
        LocalSignals {
            child_status: platform_signal(CHILD_STATUS),
            continued: platform_signal(CONTINUED),
            window_change: platform_signal(WINDOW_CHANGE),
        }
    }

    pub fn platform() -> (r: LocalSignals)
        ensures
            r == Self::platform_spec(),
    {
        LocalSignals {
            child_status: child_status_signal(),
            continued: continue_signal(),
            window_change: window_change_signal(),
        }
    }

    pub fn includes(&self, signal: i32) -> (r: bool)
        ensures
            r == self.contains(signal),
    {
        signal == self.child_status || signal == self.continued || signal == self.window_change
    }
}

/// Relies on signal_hook::consts::SIGCHLD: the platform's number for a
/// child's change of state.
#[verifier::external_body]
fn child_status_signal() -> (r: i32)
    ensures
        r == platform_signal(CHILD_STATUS),
{
    signal_hook::consts::SIGCHLD
}

/// Relies on signal_hook::consts::SIGCONT: the platform's number for a
/// continue after stop.
#[verifier::external_body]
fn continue_signal() -> (r: i32)
    ensures
        r == platform_signal(CONTINUED),
{
    signal_hook::consts::SIGCONT
}

/// Relies on signal_hook::consts::SIGWINCH: the platform's number for a
/// window-size change.
#[verifier::external_body]
fn window_change_signal() -> (r: i32)
    ensures
        r == platform_signal(WINDOW_CHANGE),
{
    signal_hook::consts::SIGWINCH
}

} // verus!

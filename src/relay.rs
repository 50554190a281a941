//! The relay as a state machine: each state asks for one action, and the
//! action's outcome, handed back as an event, gives the next state.
use vstd::prelude::*;

use crate::signal::{LocalSignals, ProcessId, SignalEvent};
use crate::status::{termination_signal, WaitStatus};

verus! {

/// What the relay does with one intercepted signal.
#[derive(Clone, Copy, Debug, PartialEq, Eq, Structural)]
pub enum Verdict {
    /// A kind that is handled on the terminal side: nothing to forward.
    Consume,
    /// Sent from within the command's own job: not forwarded.
    Drop,
    /// Forwarded to the monitor.
    Forward,
    /// Sent by this process: its process group decides.
    CheckGroup(ProcessId),
}

/// Where the relay stands.
#[derive(Clone, Copy, Debug, PartialEq, Eq, Structural)]
pub enum Phase {
    /// About to poll the notification channel.
    Polling,
    /// Taking the pending signals one by one; `read` is the status, once it
    /// has been read (the drain then ends in closing the channel).
    Draining { read: Option<WaitStatus> },
    /// Waiting for the process group of `signaler`.
    CheckingGroup { signal: i32, signaler: ProcessId, read: Option<WaitStatus> },
    /// The group of `signaler` could not be had: a diagnostic is due.
    GroupUnknown { signal: i32, signaler: ProcessId, read: Option<WaitStatus> },
    /// About to send `signal` to the monitor.
    Forwarding { signal: i32, read: Option<WaitStatus> },
    /// The status has arrived and the signals before it are relayed; the
    /// channel is to be closed.
    ClosingChannel { status: WaitStatus },
    /// About to re-raise the command's terminating signal against this process.
    SignalingSelf { status: WaitStatus, signal: i32 },
    /// Taking the pending signals to apply their default disposition.
    Emulating { status: WaitStatus },
    /// About to apply the default disposition of `signal`.
    EmulatingOne { status: WaitStatus, signal: i32 },
    /// About to close the pseudo-terminal leader.
    ClosingLeader { status: WaitStatus },
    /// Done: `status` is the result.
    Finished { status: WaitStatus },
}

/// The one thing the caller does next.
#[derive(Clone, Copy, Debug, PartialEq, Eq, Structural)]
pub enum Action {
    /// Read a status from the channel without waiting; answer `StatusRead`
    /// when a whole status came, `NoStatus` otherwise.
    PollStatus { channel: i32 },
    /// Take the next pending signal; answer `Signal` or `SignalsDrained`.
    NextSignal,
    /// Query the process group of `pid`; answer `GroupOf`.
    QueryGroup { pid: ProcessId },
    /// Record that the process group of `pid` could not be had; answer `Completed`.
    ReportUnknownGroup { pid: ProcessId },
    /// Send `signal` to the monitor `pid`; answer `Sent`.
    Forward { pid: ProcessId, signal: i32 },
    /// Close the notification channel; answer `Completed`.
    CloseChannel { channel: i32 },
    /// Send `signal` to this process, `pid`; answer `Sent`.
    SignalSelf { pid: ProcessId, signal: i32 },
    /// Apply the default disposition of `signal`; answer `Completed`.
    EmulateDefault { signal: i32 },
    /// Close the pseudo-terminal leader; answer `Completed`.
    CloseLeader { leader: i32 },
    /// Return `status` to the caller.
    Finish { status: WaitStatus },
}

/// The outcome of an action.
#[derive(Clone, Copy, Debug, PartialEq, Eq, Structural)]
pub enum Event {
    NoStatus,
    StatusRead { raw: i32 },
    Signal(SignalEvent),
    SignalsDrained,
    /// The process group, or `None` where the query failed.
    GroupOf(Option<ProcessId>),
    /// Whether a signal was sent.
    Sent(bool),
    Completed,
}

/// Everything the relay knows.
#[derive(Clone, Copy, Debug, PartialEq, Eq, Structural)]
pub struct RelayState {
    pub monitor_pid: ProcessId,
    pub sudo_pid: ProcessId,
    /// The command's identity, once it is known.
    pub command_pid: Option<ProcessId>,
    pub pty_leader: i32,
    pub channel: i32,
    pub local: LocalSignals,
    pub phase: Phase,
}

impl RelayState {
    /// `group` is led by the command or by this process: it is the command's job.
    pub open spec fn leads_job(self, group: ProcessId) -> bool {
        self.command_pid == Some(group) || group == self.sudo_pid
    }

    pub open spec fn signal_verdict(self, ev: SignalEvent) -> Verdict {
        if self.local.contains(ev.signal) {
            Verdict::Consume
        } else if ev.sent_by_process() && ev.process is Some && ev.process->0 != 0 {
            if self.command_pid == ev.process {
                Verdict::Drop
            } else {
                Verdict::CheckGroup(ev.process->0)
            }
        } else {
            Verdict::Forward
        }
    }

    /// A signal sent by `signaler` comes from the command's own job: the
    /// signaler is the command, or its process group (`group`, `None` where
    /// the query failed) is led by the command or by this process.
    pub open spec fn self_terminating(self, signaler: Option<ProcessId>, group: Option<ProcessId>) -> bool {
        &&& signaler is Some
        &&& signaler->0 != 0
        &&& (self.command_pid == signaler || (group is Some && self.leads_job(group->0)))
    }

    pub open spec fn on_signal(self, ev: SignalEvent, read: Option<WaitStatus>) -> Phase {
        match self.signal_verdict(ev) {
            Verdict::Forward => Phase::Forwarding { signal: ev.signal, read },
            Verdict::CheckGroup(pid) => Phase::CheckingGroup { signal: ev.signal, signaler: pid, read },
            _ => Phase::Draining { read },
        }
    }

    pub open spec fn on_group(
        self,
        signal: i32,
        signaler: ProcessId,
        group: Option<ProcessId>,
        read: Option<WaitStatus>,
    ) -> Phase {
        match group {
            None => Phase::GroupUnknown { signal, signaler, read },
            Some(_) => if self.self_terminating(Some(signaler), group) {
                Phase::Draining { read }
            } else {
                Phase::Forwarding { signal, read }
            },
        }
    }

    pub open spec fn on_drained(read: Option<WaitStatus>) -> Phase {
        match read {
            Some(status) => Phase::ClosingChannel { status },
            None => Phase::Polling,
        }
    }

    pub open spec fn on_closed_channel(status: WaitStatus) -> Phase {
        match termination_signal(status.raw) {
            Some(k) => Phase::SignalingSelf { status, signal: k },
            None => Phase::ClosingLeader { status },
        }
    }

    /// The phase after `event`; an event that does not answer the pending
    /// action leaves the phase as it is.
    pub open spec fn next_phase(self, event: Event) -> Phase {
        match (self.phase, event) {
            (Phase::Polling, Event::NoStatus) => Phase::Draining { read: None },
            (Phase::Polling, Event::StatusRead { raw }) => Phase::Draining {
                read: Some(WaitStatus { raw }),
            },
            (Phase::Draining { read }, Event::Signal(ev)) => self.on_signal(ev, read),
            (Phase::Draining { read }, Event::SignalsDrained) => Self::on_drained(read),
            (Phase::CheckingGroup { signal, signaler, read }, Event::GroupOf(g)) => self.on_group(
                signal,
                signaler,
                g,
                read,
            ),
            (Phase::GroupUnknown { signal, read, .. }, Event::Completed) => Phase::Forwarding {
                signal,
                read,
            },
            (Phase::Forwarding { read, .. }, Event::Sent(_)) => Phase::Draining { read },
            (Phase::ClosingChannel { status }, Event::Completed) => Self::on_closed_channel(
                status,
            ),
            (Phase::SignalingSelf { status, .. }, Event::Sent(ok)) => if ok {
                Phase::Emulating { status }
            } else {
                Phase::ClosingLeader { status }
            },
            (Phase::Emulating { status }, Event::Signal(ev)) => Phase::EmulatingOne {
                status,
                signal: ev.signal,
            },
            (Phase::Emulating { status }, Event::SignalsDrained) => Phase::ClosingLeader { status },
            (Phase::EmulatingOne { status, .. }, Event::Completed) => Phase::Emulating { status },
            (Phase::ClosingLeader { status }, Event::Completed) => Phase::Finished { status },
            _ => self.phase,
        }
    }

    pub open spec fn step(self, event: Event) -> RelayState {
        RelayState { phase: self.next_phase(event), ..self }
    }

    /// The action that the phase asks for.
    pub open spec fn action(self) -> Action {
        match self.phase {
            Phase::Polling => Action::PollStatus { channel: self.channel },
            Phase::Draining { .. } => Action::NextSignal,
            Phase::CheckingGroup { signaler, .. } => Action::QueryGroup { pid: signaler },
            Phase::GroupUnknown { signaler, .. } => Action::ReportUnknownGroup { pid: signaler },
            Phase::Forwarding { signal, .. } => Action::Forward { pid: self.monitor_pid, signal },
            Phase::ClosingChannel { .. } => Action::CloseChannel { channel: self.channel },
            Phase::SignalingSelf { signal, .. } => Action::SignalSelf { pid: self.sudo_pid, signal },
            Phase::Emulating { .. } => Action::NextSignal,
            Phase::EmulatingOne { signal, .. } => Action::EmulateDefault { signal },
            Phase::ClosingLeader { .. } => Action::CloseLeader { leader: self.pty_leader },
            Phase::Finished { status } => Action::Finish { status },
        }
    }
}

/// The relay between the invoking terminal and the monitor of a command
/// that runs on a pseudo-terminal.
pub struct PtyRelay {
    state: RelayState,
}

impl View for PtyRelay {
    type V = RelayState;

    closed spec fn view(&self) -> RelayState {
        self.state
    }
}

impl PtyRelay {
    /// A relay that forwards to `monitor_pid`, re-raises fatal signals
    /// against `sudo_pid`, and owns `pty_leader` and the read end `channel`
    /// of the notification channel. The command's identity is not known yet.
    pub fn new(monitor_pid: ProcessId, sudo_pid: ProcessId, pty_leader: i32, channel: i32) -> (r:
        PtyRelay)
        ensures
            r@.monitor_pid == monitor_pid,
            r@.sudo_pid == sudo_pid,
            r@.command_pid == None::<ProcessId>,
            r@.pty_leader == pty_leader,
            r@.channel == channel,
            r@.phase == Phase::Polling,
            r@.local == LocalSignals::platform_spec(),
    {
        PtyRelay {
            state: RelayState {
                monitor_pid,
                sudo_pid,
                command_pid: None,
                pty_leader,
                channel,
                local: LocalSignals::platform(),
                phase: Phase::Polling,
            },
        }
    }

    /// Records the command's identity; once known it never changes.
    pub fn record_command_pid(&mut self, pid: ProcessId)
        requires
            pid > 0,
        ensures
            final(self)@ == (RelayState {
                command_pid: if old(self)@.command_pid is None {
                    Some(pid)
                } else {
                    old(self)@.command_pid
                },
                ..old(self)@
            }),
    {
        if self.state.command_pid.is_none() {
            self.state.command_pid = Some(pid);
        }
    }

    pub fn state(&self) -> (r: RelayState)
        ensures
            r == self@,
    {
        self.state
    }

    /// What to do with `info`, before any process-group query.
    pub fn relay_signal(&self, info: &SignalEvent) -> (r: Verdict)
        ensures
            r == self@.signal_verdict(*info),
    {
        if self.state.local.includes(info.signal) {
            Verdict::Consume
        } else if info.is_sent_by_process() && info.process.is_some() && info.process.unwrap() != 0 {
            if self.state.command_pid == info.process {
                Verdict::Drop
            } else {
                Verdict::CheckGroup(info.process.unwrap())
            }
        } else {
            Verdict::Forward
        }
    }

    /// Whether a signal sent by `signaler` comes from the command's own job:
    /// the signaler is the command, or its process group `signaler_group` is
    /// led by the command or by this process. `signaler_group` is the result
    /// of the group query, `None` where it failed.
    pub fn is_self_terminating(
        &self,
        signaler: Option<ProcessId>,
        signaler_group: Option<ProcessId>,
    ) -> (r: bool)
        ensures
            r == self@.self_terminating(signaler, signaler_group),
    {
        match signaler {
            Some(pid) => {
                if pid == 0 {
                    false
                } else if self.state.command_pid == Some(pid) {
                    true
                } else {
                    match signaler_group {
                        Some(g) => self.state.command_pid == Some(g) || g == self.state.sudo_pid,
                        None => false,
                    }
                }
            },
            None => false,
        }
    }

    /// The action that the relay asks for now.
    pub fn action(&self) -> (r: Action)
        ensures
            r == self@.action(),
    {
        let st = &self.state;
        match st.phase {
            Phase::Polling => Action::PollStatus { channel: st.channel },
            Phase::Draining { .. } => Action::NextSignal,
            Phase::CheckingGroup { signaler, .. } => Action::QueryGroup { pid: signaler },
            Phase::GroupUnknown { signaler, .. } => Action::ReportUnknownGroup { pid: signaler },
            Phase::Forwarding { signal, .. } => Action::Forward { pid: st.monitor_pid, signal },
            Phase::ClosingChannel { .. } => Action::CloseChannel { channel: st.channel },
            Phase::SignalingSelf { signal, .. } => Action::SignalSelf { pid: st.sudo_pid, signal },
            Phase::Emulating { .. } => Action::NextSignal,
            Phase::EmulatingOne { signal, .. } => Action::EmulateDefault { signal },
            Phase::ClosingLeader { .. } => Action::CloseLeader { leader: st.pty_leader },
            Phase::Finished { status } => Action::Finish { status },
        }
    }

    /// Takes the outcome of the last action.
    pub fn step(&mut self, event: Event)
        ensures
            final(self)@ == old(self)@.step(event),
    {
        let next = match (self.state.phase, event) {
            (Phase::Polling, Event::NoStatus) => Phase::Draining { read: None },
            (Phase::Polling, Event::StatusRead { raw }) => Phase::Draining {
                read: Some(WaitStatus::from_raw(raw)),
            },
            (Phase::Draining { read }, Event::Signal(ev)) => match self.relay_signal(&ev) {
                Verdict::Forward => Phase::Forwarding { signal: ev.signal, read },
                Verdict::CheckGroup(pid) => Phase::CheckingGroup {
                    signal: ev.signal,
                    signaler: pid,
                    read,
                },
                _ => Phase::Draining { read },
            },
            (Phase::Draining { read }, Event::SignalsDrained) => match read {
                Some(status) => Phase::ClosingChannel { status },
                None => Phase::Polling,
            },
            (Phase::CheckingGroup { signal, signaler, read }, Event::GroupOf(g)) => {
                if g.is_none() {
                    Phase::GroupUnknown { signal, signaler, read }
                } else if self.is_self_terminating(Some(signaler), g) {
                    Phase::Draining { read }
                } else {
                    Phase::Forwarding { signal, read }
                }
            },
            (Phase::GroupUnknown { signal, read, .. }, Event::Completed) => Phase::Forwarding {
                signal,
                read,
            },
            (Phase::Forwarding { read, .. }, Event::Sent(_)) => Phase::Draining { read },
            (Phase::ClosingChannel { status }, Event::Completed) => match status.signal() {
                Some(k) => Phase::SignalingSelf { status, signal: k },
                None => Phase::ClosingLeader { status },
            },
            (Phase::SignalingSelf { status, .. }, Event::Sent(ok)) => if ok {
                Phase::Emulating { status }
            } else {
                Phase::ClosingLeader { status }
            },
            (Phase::Emulating { status }, Event::Signal(ev)) => Phase::EmulatingOne {
                status,
                signal: ev.signal,
            },
            (Phase::Emulating { status }, Event::SignalsDrained) => Phase::ClosingLeader { status },
            (Phase::EmulatingOne { status, .. }, Event::Completed) => Phase::Emulating { status },
            (Phase::ClosingLeader { status }, Event::Completed) => Phase::Finished { status },
            _ => self.state.phase,
        };
        self.state.phase = next;
    }
}

} // verus!

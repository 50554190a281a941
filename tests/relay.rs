use pty_relay::relay::{Action, Event, PtyRelay, Verdict};
use pty_relay::signal::{SendMethod, SignalCause, SignalEvent};
use pty_relay::status::WaitStatus;
use signal_hook::consts::{SIGCHLD, SIGCONT, SIGINT, SIGTERM, SIGUSR1, SIGUSR2, SIGWINCH, SIGHUP};

const MONITOR: i32 = 100;
const SUDO: i32 = 200;
const LEADER: i32 = 5;
const CHANNEL: i32 = 6;

fn relay() -> PtyRelay {
    PtyRelay::new(MONITOR, SUDO, LEADER, CHANNEL)
}

fn killed_by(signal: i32, pid: i32) -> SignalEvent {
    SignalEvent { signal, process: Some(pid), cause: SignalCause::Sent(SendMethod::Kill) }
}

fn from_kernel(signal: i32) -> SignalEvent {
    SignalEvent { signal, process: None, cause: SignalCause::Kernel }
}

/// Answers one action and returns the next one.
fn answer(r: &mut PtyRelay, event: Event) -> Action {
    r.step(event);
    r.action()
}

#[test]
fn exit_code_zero_closes_leader_once_without_self_signal() {
    let mut r = relay();
    assert_eq!(r.action(), Action::PollStatus { channel: CHANNEL });
    assert_eq!(answer(&mut r, Event::StatusRead { raw: 0 }), Action::NextSignal);
    assert_eq!(answer(&mut r, Event::SignalsDrained), Action::CloseChannel { channel: CHANNEL });
    assert_eq!(answer(&mut r, Event::Completed), Action::CloseLeader { leader: LEADER });
    let done = answer(&mut r, Event::Completed);
    assert_eq!(done, Action::Finish { status: WaitStatus { raw: 0 } });
    if let Action::Finish { status } = done {
        assert_eq!(status.code(), Some(0));
        assert_eq!(status.signal(), None);
        assert!(status.success());
    }
    // Finished: nothing else is asked for, whatever comes.
    assert_eq!(answer(&mut r, Event::Completed), done);
    assert_eq!(answer(&mut r, Event::Signal(from_kernel(SIGTERM))), done);
}

#[test]
fn interrupted_command_reraises_and_emulates_pending() {
    let mut r = relay();
    let raw = WaitStatus::signaled(SIGINT).raw;
    assert_eq!(answer(&mut r, Event::StatusRead { raw }), Action::NextSignal);
    assert_eq!(answer(&mut r, Event::SignalsDrained), Action::CloseChannel { channel: CHANNEL });
    assert_eq!(answer(&mut r, Event::Completed), Action::SignalSelf { pid: SUDO, signal: SIGINT });
    assert_eq!(answer(&mut r, Event::Sent(true)), Action::NextSignal);
    assert_eq!(answer(&mut r, Event::Signal(from_kernel(SIGTERM))), Action::EmulateDefault { signal: SIGTERM });
    assert_eq!(answer(&mut r, Event::Completed), Action::NextSignal);
    assert_eq!(answer(&mut r, Event::SignalsDrained), Action::CloseLeader { leader: LEADER });
    let done = answer(&mut r, Event::Completed);
    assert_eq!(done, Action::Finish { status: WaitStatus { raw } });
    if let Action::Finish { status } = done {
        assert_eq!(status.signal(), Some(SIGINT));
        assert_eq!(status.code(), None);
    }
}

#[test]
fn failed_self_signal_skips_emulation() {
    let mut r = relay();
    let raw = WaitStatus::signaled(SIGHUP).raw;
    answer(&mut r, Event::StatusRead { raw });
    assert_eq!(answer(&mut r, Event::SignalsDrained), Action::CloseChannel { channel: CHANNEL });
    assert_eq!(answer(&mut r, Event::Completed), Action::SignalSelf { pid: SUDO, signal: SIGHUP });
    assert_eq!(answer(&mut r, Event::Sent(false)), Action::CloseLeader { leader: LEADER });
    assert_eq!(answer(&mut r, Event::Completed), Action::Finish { status: WaitStatus { raw } });
}

#[test]
fn signal_from_command_is_dropped() {
    let mut r = relay();
    r.record_command_pid(300);
    assert_eq!(answer(&mut r, Event::NoStatus), Action::NextSignal);
    assert_eq!(answer(&mut r, Event::Signal(killed_by(SIGTERM, 300))), Action::NextSignal);
    assert_eq!(answer(&mut r, Event::SignalsDrained), Action::PollStatus { channel: CHANNEL });
}

#[test]
fn unknown_group_still_forwards_with_diagnostic() {
    let mut r = relay();
    r.record_command_pid(300);
    answer(&mut r, Event::NoStatus);
    assert_eq!(answer(&mut r, Event::Signal(killed_by(SIGUSR1, 400))), Action::QueryGroup { pid: 400 });
    assert_eq!(answer(&mut r, Event::GroupOf(None)), Action::ReportUnknownGroup { pid: 400 });
    assert_eq!(answer(&mut r, Event::Completed), Action::Forward { pid: MONITOR, signal: SIGUSR1 });
    assert_eq!(answer(&mut r, Event::Sent(false)), Action::NextSignal);
}

#[test]
fn local_kinds_are_consumed() {
    let r = relay();
    for sig in [SIGCHLD, SIGCONT, SIGWINCH] {
        assert_eq!(r.relay_signal(&from_kernel(sig)), Verdict::Consume);
        assert_eq!(r.relay_signal(&killed_by(sig, 400)), Verdict::Consume);
    }
    let mut m = relay();
    answer(&mut m, Event::NoStatus);
    assert_eq!(answer(&mut m, Event::Signal(from_kernel(SIGWINCH))), Action::NextSignal);
}

#[test]
fn forwarding_keeps_arrival_order() {
    let mut r = relay();
    answer(&mut r, Event::NoStatus);
    let mut sent = Vec::new();
    for sig in [SIGUSR2, SIGTERM, SIGHUP] {
        match answer(&mut r, Event::Signal(from_kernel(sig))) {
            Action::Forward { pid, signal } => {
                assert_eq!(pid, MONITOR);
                sent.push(signal);
            }
            other => panic!("unexpected {:?}", other),
        }
        assert_eq!(answer(&mut r, Event::Sent(true)), Action::NextSignal);
    }
    assert_eq!(sent, vec![SIGUSR2, SIGTERM, SIGHUP]);
}

#[test]
fn group_led_by_relay_or_command_is_dropped() {
    let mut r = relay();
    r.record_command_pid(300);
    answer(&mut r, Event::NoStatus);
    answer(&mut r, Event::Signal(killed_by(SIGTERM, 401)));
    assert_eq!(answer(&mut r, Event::GroupOf(Some(SUDO))), Action::NextSignal);
    answer(&mut r, Event::Signal(killed_by(SIGTERM, 402)));
    assert_eq!(answer(&mut r, Event::GroupOf(Some(300))), Action::NextSignal);
    answer(&mut r, Event::Signal(killed_by(SIGTERM, 403)));
    assert_eq!(answer(&mut r, Event::GroupOf(Some(999))), Action::Forward { pid: MONITOR, signal: SIGTERM });
}

#[test]
fn unknown_command_is_never_self_terminating() {
    let r = relay();
    assert_eq!(r.relay_signal(&killed_by(SIGTERM, 300)), Verdict::CheckGroup(300));
    assert!(!r.is_self_terminating(Some(300), Some(777)));
    assert!(r.is_self_terminating(Some(300), Some(SUDO)));
}

#[test]
fn self_termination_predicate() {
    let mut r = relay();
    r.record_command_pid(300);
    assert!(!r.is_self_terminating(None, Some(SUDO)));
    assert!(!r.is_self_terminating(Some(0), Some(SUDO)));
    assert!(r.is_self_terminating(Some(300), None));
    assert!(!r.is_self_terminating(Some(301), None));
    assert!(r.is_self_terminating(Some(301), Some(300)));
    assert!(r.is_self_terminating(Some(301), Some(SUDO)));
    assert!(!r.is_self_terminating(Some(301), Some(302)));
}

#[test]
fn any_explicit_send_from_command_is_dropped() {
    let mut r = relay();
    r.record_command_pid(300);
    for method in [SendMethod::Kill, SendMethod::TKill, SendMethod::Queue, SendMethod::MesgQ] {
        let sent = SignalEvent { signal: SIGTERM, process: Some(300), cause: SignalCause::Sent(method) };
        assert_eq!(r.relay_signal(&sent), Verdict::Drop);
    }
    let queued = SignalEvent { signal: SIGTERM, process: Some(301), cause: SignalCause::Sent(SendMethod::Queue) };
    assert_eq!(r.relay_signal(&queued), Verdict::CheckGroup(301));
    let child = SignalEvent { signal: SIGTERM, process: Some(300), cause: SignalCause::ChildChange };
    assert_eq!(r.relay_signal(&child), Verdict::Forward);
    assert_eq!(r.relay_signal(&from_kernel(SIGINT)), Verdict::Forward);
    assert_eq!(r.relay_signal(&killed_by(SIGINT, 0)), Verdict::Forward);
    assert_eq!(r.relay_signal(&killed_by(SIGINT, 300)), Verdict::Drop);
}

#[test]
fn command_pid_is_recorded_once() {
    let mut r = relay();
    assert_eq!(r.state().command_pid, None);
    r.record_command_pid(300);
    r.record_command_pid(301);
    assert_eq!(r.state().command_pid, Some(300));
    assert_eq!(r.state().monitor_pid, MONITOR);
    assert_eq!(r.state().sudo_pid, SUDO);
}

#[test]
fn signals_pending_at_status_are_relayed_before_close() {
    let mut r = relay();
    r.record_command_pid(300);
    assert_eq!(answer(&mut r, Event::StatusRead { raw: 0 }), Action::NextSignal);
    assert_eq!(answer(&mut r, Event::Signal(from_kernel(SIGUSR2))), Action::Forward { pid: MONITOR, signal: SIGUSR2 });
    assert_eq!(answer(&mut r, Event::Sent(true)), Action::NextSignal);
    assert_eq!(answer(&mut r, Event::Signal(killed_by(SIGTERM, 300))), Action::NextSignal);
    assert_eq!(answer(&mut r, Event::Signal(killed_by(SIGHUP, 401))), Action::QueryGroup { pid: 401 });
    assert_eq!(answer(&mut r, Event::GroupOf(Some(999))), Action::Forward { pid: MONITOR, signal: SIGHUP });
    assert_eq!(answer(&mut r, Event::Sent(true)), Action::NextSignal);
    assert_eq!(answer(&mut r, Event::SignalsDrained), Action::CloseChannel { channel: CHANNEL });
    assert_eq!(answer(&mut r, Event::Completed), Action::CloseLeader { leader: LEADER });
    assert_eq!(answer(&mut r, Event::Completed), Action::Finish { status: WaitStatus { raw: 0 } });
}

#[test]
fn new_relay_consumes_platform_kinds() {
    let l = relay().state().local;
    assert_eq!(l.child_status, SIGCHLD);
    assert_eq!(l.continued, SIGCONT);
    assert_eq!(l.window_change, SIGWINCH);
}

#[test]
fn mismatched_event_is_ignored() {
    let mut r = relay();
    assert_eq!(answer(&mut r, Event::Completed), Action::PollStatus { channel: CHANNEL });
    assert_eq!(answer(&mut r, Event::Signal(from_kernel(SIGTERM))), Action::PollStatus { channel: CHANNEL });
}

#[test]
fn wait_status_decoding() {
    assert_eq!(WaitStatus::from_raw(256).code(), Some(1));
    assert_eq!(WaitStatus::from_raw(256).signal(), None);
    assert!(!WaitStatus::from_raw(256).success());
    assert_eq!(WaitStatus::exited(3).raw, 0x300);
    assert_eq!(WaitStatus::from_raw(0x7f).signal(), None);
    assert_eq!(WaitStatus::from_raw(0x7f).code(), None);
    assert_eq!(WaitStatus::from_raw(0x89).signal(), Some(9));
    assert_eq!(WaitStatus::signaled(SIGTERM).raw, SIGTERM);
}

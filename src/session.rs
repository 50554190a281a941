//! Whole runs of the relay: the actions it asks for, answered one by one,
//! and what holds of every such run.
use vstd::prelude::*;

use crate::relay::{Action, Event, Phase, RelayState, Verdict};
use crate::signal::{ProcessId, SignalEvent};
use crate::status::{termination_signal, WaitStatus};

verus! {

/// `event` is an outcome that `action` can have.
pub open spec fn answers(action: Action, event: Event) -> bool {
    match action {
        Action::PollStatus { .. } => event is NoStatus || event is StatusRead,
        Action::NextSignal => event is Signal || event is SignalsDrained,
        Action::QueryGroup { .. } => event is GroupOf,
        Action::ReportUnknownGroup { .. } => event is Completed,
        Action::Forward { .. } => event is Sent,
        Action::CloseChannel { .. } => event is Completed,
        Action::SignalSelf { .. } => event is Sent,
        Action::EmulateDefault { .. } => event is Completed,
        Action::CloseLeader { .. } => event is Completed,
        Action::Finish { .. } => false,
    }
}

/// The state after the relay in state `s` has taken `events`.
pub open spec fn run(s: RelayState, events: Seq<Event>) -> RelayState
    decreases events.len(),
{
    if events.len() == 0 {
        s
    } else {
        run(s, events.drop_last()).step(events.last())
    }
}

/// The actions asked for, one per event of `events`.
pub open spec fn performed(s: RelayState, events: Seq<Event>) -> Seq<Action>
    decreases events.len(),
{
    if events.len() == 0 {
        Seq::empty()
    } else {
        performed(s, events.drop_last()).push(run(s, events.drop_last()).action())
    }
}

/// Each event answers the action that was asked for before it.
pub open spec fn responsive(s: RelayState, events: Seq<Event>) -> bool
    decreases events.len(),
{
    events.len() == 0 || (responsive(s, events.drop_last()) && answers(
        run(s, events.drop_last()).action(),
        events.last(),
    ))
}

/// The signals taken while relaying, in the order they came.
pub open spec fn accepted(s: RelayState, events: Seq<Event>) -> Seq<SignalEvent>
    decreases events.len(),
{
    if events.len() == 0 {
        Seq::empty()
    } else {
        let before = accepted(s, events.drop_last());
        match (run(s, events.drop_last()).phase, events.last()) {
            (Phase::Draining { .. }, Event::Signal(ev)) => before.push(ev),
            _ => before,
        }
    }
}

/// The answers to the process-group queries, in the order they came
/// (`None` where a query failed).
pub open spec fn group_answers(s: RelayState, events: Seq<Event>) -> Seq<Option<ProcessId>>
    decreases events.len(),
{
    if events.len() == 0 {
        Seq::empty()
    } else {
        let before = group_answers(s, events.drop_last());
        match (run(s, events.drop_last()).phase, events.last()) {
            (Phase::CheckingGroup { .. }, Event::GroupOf(g)) => before.push(g),
            _ => before,
        }
    }
}

/// The signals sent to the monitor, in the order they were sent.
pub open spec fn forwarded(s: RelayState, events: Seq<Event>) -> Seq<i32>
    decreases events.len(),
{
    if events.len() == 0 {
        Seq::empty()
    } else {
        let before = forwarded(s, events.drop_last());
        match run(s, events.drop_last()).action() {
            Action::Forward { signal, .. } => before.push(signal),
            _ => before,
        }
    }
}

/// The raw status read from the notification channel, if one was.
pub open spec fn status_read(s: RelayState, events: Seq<Event>) -> Option<i32>
    decreases events.len(),
{
    if events.len() == 0 {
        None
    } else {
        match (run(s, events.drop_last()).phase, events.last()) {
            (Phase::Polling, Event::StatusRead { raw }) => Some(raw),
            _ => status_read(s, events.drop_last()),
        }
    }
}

/// How many self-signals were answered as sent.
pub open spec fn self_signals_sent(s: RelayState, events: Seq<Event>) -> nat
    decreases events.len(),
{
    if events.len() == 0 {
        0
    } else {
        let before = self_signals_sent(s, events.drop_last());
        if run(s, events.drop_last()).action() is SignalSelf && events.last() == Event::Sent(true) {
            before + 1
        } else {
            before
        }
    }
}

pub open spec fn leader_closes(acts: Seq<Action>) -> nat
    decreases acts.len(),
{
    if acts.len() == 0 {
        0
    } else {
        leader_closes(acts.drop_last()) + if acts.last() is CloseLeader {
            1nat
        } else {
            0nat
        }
    }
}

pub open spec fn channel_closes(acts: Seq<Action>) -> nat
    decreases acts.len(),
{
    if acts.len() == 0 {
        0
    } else {
        channel_closes(acts.drop_last()) + if acts.last() is CloseChannel {
            1nat
        } else {
            0nat
        }
    }
}

pub open spec fn self_signals(acts: Seq<Action>) -> nat
    decreases acts.len(),
{
    if acts.len() == 0 {
        0
    } else {
        self_signals(acts.drop_last()) + if acts.last() is SignalSelf {
            1nat
        } else {
            0nat
        }
    }
}

pub open spec fn emulations(acts: Seq<Action>) -> nat
    decreases acts.len(),
{
    if acts.len() == 0 {
        0
    } else {
        emulations(acts.drop_last()) + if acts.last() is EmulateDefault {
            1nat
        } else {
            0nat
        }
    }
}

/// `fwd` is exactly what relaying `acc` in order sends to the monitor, when
/// the process-group queries were answered `groups` in order: a signal with
/// verdict `Forward` is sent, none with `Consume` or `Drop`, and one that
/// needed a query is sent unless its answer shows it came from the
/// command's own job.
pub open spec fn relays(
    s: RelayState,
    acc: Seq<SignalEvent>,
    groups: Seq<Option<ProcessId>>,
    fwd: Seq<i32>,
) -> bool
    decreases acc.len(),
{
    if acc.len() == 0 {
        fwd.len() == 0 && groups.len() == 0
    } else {
        let e = acc.last();
        match s.signal_verdict(e) {
            Verdict::Forward => fwd.len() > 0 && fwd.last() == e.signal && relays(
                s,
                acc.drop_last(),
                groups,
                fwd.drop_last(),
            ),
            Verdict::CheckGroup(_) => groups.len() > 0 && if s.self_terminating(
                e.process,
                groups.last(),
            ) {
                relays(s, acc.drop_last(), groups.drop_last(), fwd)
            } else {
                fwd.len() > 0 && fwd.last() == e.signal && relays(
                    s,
                    acc.drop_last(),
                    groups.drop_last(),
                    fwd.drop_last(),
                )
            },
            _ => relays(s, acc.drop_last(), groups, fwd),
        }
    }
}

/// The phase is between taking a signal and being done with it.
pub open spec fn mid_signal(p: Phase) -> bool {
    p is CheckingGroup || p is GroupUnknown || p is Forwarding
}

/// The status has been read.
pub open spec fn after_read(p: Phase) -> bool {
    match p {
        Phase::Polling => false,
        Phase::Draining { read } => read is Some,
        Phase::CheckingGroup { read, .. } => read is Some,
        Phase::GroupUnknown { read, .. } => read is Some,
        Phase::Forwarding { read, .. } => read is Some,
        _ => true,
    }
}

/// How far a phase after the read is from `Finished`.
pub open spec fn rank(p: Phase) -> nat {
    match p {
        Phase::Polling => 20,
        Phase::CheckingGroup { .. } => 13,
        Phase::GroupUnknown { .. } => 12,
        Phase::Forwarding { .. } => 11,
        Phase::Draining { .. } => 10,
        Phase::ClosingChannel { .. } => 7,
        Phase::SignalingSelf { .. } => 6,
        Phase::EmulatingOne { .. } => 4,
        Phase::Emulating { .. } => 3,
        Phase::ClosingLeader { .. } => 1,
        Phase::Finished { .. } => 0,
    }
}

pub open spec fn signals_taken(events: Seq<Event>) -> nat
    decreases events.len(),
{
    if events.len() == 0 {
        0
    } else {
        signals_taken(events.drop_last()) + if events.last() is Signal {
            1nat
        } else {
            0nat
        }
    }
}

/// The raw status that an optional read status stands for.
pub open spec fn raw_of(read: Option<WaitStatus>) -> Option<i32> {
    match read {
        Some(w) => Some(w.raw),
        None => None,
    }
}

/// The status that a phase of termination carries.
pub open spec fn status_of(p: Phase) -> WaitStatus {
    match p {
        Phase::ClosingChannel { status } => status,
        Phase::SignalingSelf { status, .. } => status,
        Phase::Emulating { status } => status,
        Phase::EmulatingOne { status, .. } => status,
        Phase::ClosingLeader { status } => status,
        Phase::Finished { status } => status,
        _ => WaitStatus { raw: 0 },
    }
}

/// No closing, self-signal or emulation has been asked for yet.
pub open spec fn nothing_closed(acts: Seq<Action>) -> bool {
    channel_closes(acts) == 0 && self_signals(acts) == 0 && emulations(acts) == 0
        && leader_closes(acts) == 0
}

/// What a run from a fresh relay has done, read off the phase it is in.
pub open spec fn trace_facts(s: RelayState, events: Seq<Event>) -> bool {
    let st = run(s, events);
    let acts = performed(s, events);
    let acc = accepted(s, events);
    let groups = group_answers(s, events);
    let fwd = forwarded(s, events);
    let fatal = termination_signal(status_of(st.phase).raw);
    let selfs: nat = if fatal is Some {
        1
    } else {
        0
    };
    &&& st == (RelayState { phase: st.phase, ..s })
    &&& acts.len() == events.len()
    &&& forall|i: int|
        0 <= i < acts.len() && #[trigger] acts[i] is Forward ==> acts[i]->Forward_pid == s.monitor_pid
    &&& forall|i: int|
        0 <= i < acts.len() && #[trigger] acts[i] is SignalSelf ==> acts[i] == (Action::SignalSelf {
            pid: s.sudo_pid,
            signal: termination_signal(status_of(st.phase).raw)->0,
        })
    &&& emulations(acts) > 0 ==> self_signals_sent(s, events) == 1
    &&& self_signals_sent(s, events) <= self_signals(acts)
    &&& match st.phase {
        Phase::Polling => {
            &&& relays(s, acc, groups, fwd)
            &&& status_read(s, events) is None
            &&& nothing_closed(acts)
        },
        Phase::Draining { read } => {
            &&& relays(s, acc, groups, fwd)
            &&& status_read(s, events) == raw_of(read)
            &&& nothing_closed(acts)
        },
        Phase::CheckingGroup { signal, signaler, read } => {
            &&& acc.len() > 0 && acc.last().signal == signal
            &&& s.signal_verdict(acc.last()) == Verdict::CheckGroup(signaler)
            &&& relays(s, acc.drop_last(), groups, fwd)
            &&& status_read(s, events) == raw_of(read)
            &&& nothing_closed(acts)
        },
        Phase::GroupUnknown { signal, signaler, read } => {
            &&& acc.len() > 0 && acc.last().signal == signal
            &&& s.signal_verdict(acc.last()) == Verdict::CheckGroup(signaler)
            &&& groups.len() > 0 && groups.last() is None
            &&& relays(s, acc.drop_last(), groups.drop_last(), fwd)
            &&& status_read(s, events) == raw_of(read)
            &&& nothing_closed(acts)
        },
        Phase::Forwarding { signal, read } => {
            &&& acc.len() > 0 && acc.last().signal == signal
            &&& ((s.signal_verdict(acc.last()) is Forward && relays(s, acc.drop_last(), groups, fwd))
                || (s.signal_verdict(acc.last()) is CheckGroup && groups.len() > 0
                && !s.self_terminating(acc.last().process, groups.last()) && relays(
                s,
                acc.drop_last(),
                groups.drop_last(),
                fwd,
            )))
            &&& status_read(s, events) == raw_of(read)
            &&& nothing_closed(acts)
        },
        Phase::ClosingChannel { status } => {
            &&& relays(s, acc, groups, fwd)
            &&& status_read(s, events) == Some(status.raw)
            &&& nothing_closed(acts)
        },
        Phase::SignalingSelf { status, signal } => {
            &&& relays(s, acc, groups, fwd)
            &&& status_read(s, events) == Some(status.raw)
            &&& fatal == Some(signal)
            &&& channel_closes(acts) == 1 && self_signals(acts) == 0
            &&& emulations(acts) == 0 && leader_closes(acts) == 0
        },
        Phase::Emulating { status } | Phase::EmulatingOne { status, .. } => {
            &&& relays(s, acc, groups, fwd)
            &&& status_read(s, events) == Some(status.raw)
            &&& fatal is Some
            &&& self_signals_sent(s, events) == 1
            &&& channel_closes(acts) == 1 && self_signals(acts) == 1
            &&& leader_closes(acts) == 0
        },
        Phase::ClosingLeader { status } => {
            &&& relays(s, acc, groups, fwd)
            &&& status_read(s, events) == Some(status.raw)
            &&& channel_closes(acts) == 1 && self_signals(acts) == selfs
            &&& leader_closes(acts) == 0
        },
        Phase::Finished { status } => {
            &&& relays(s, acc, groups, fwd)
            &&& status_read(s, events) == Some(status.raw)
            &&& channel_closes(acts) == 1 && self_signals(acts) == selfs
            &&& leader_closes(acts) == 1
            &&& acts.len() > 0 && acts.last() is CloseLeader
        },
    }
}

proof fn lemma_none_of_kind(acts: Seq<Action>, leader: bool)
    requires
        leader ==> leader_closes(acts) == 0,
        !leader ==> self_signals(acts) == 0,
    ensures
        leader ==> forall|i: int| 0 <= i < acts.len() ==> !(#[trigger] acts[i] is CloseLeader),
        !leader ==> forall|i: int| 0 <= i < acts.len() ==> !(#[trigger] acts[i] is SignalSelf),
    decreases acts.len(),
{
    if acts.len() > 0 {
        lemma_none_of_kind(acts.drop_last(), leader);
        assert forall|i: int| 0 <= i < acts.len() - 1 implies acts[i] == acts.drop_last()[i] by {}
    }
}

/// Every run of a fresh relay whose events answer its actions satisfies
/// `trace_facts`.
#[verifier::rlimit(100)]
pub proof fn lemma_trace_facts(s: RelayState, events: Seq<Event>)
    requires
        s.phase == Phase::Polling,
        responsive(s, events),
    ensures
        trace_facts(s, events),
    decreases events.len(),
{
    if events.len() > 0 {
        let prev = events.drop_last();
        lemma_trace_facts(s, prev);
        let st = run(s, prev);
        let acts = performed(s, events);
        let acc = accepted(s, prev);
        let groups = group_answers(s, prev);
        let fwd = forwarded(s, prev);
        assert(acts.drop_last() =~= performed(s, prev));
        assert(acts.last() == st.action());
        if self_signals(performed(s, prev)) == 0 {
            lemma_none_of_kind(performed(s, prev), false);
        }
        assert forall|x: SignalEvent| acc.push(x).drop_last() =~= acc by {}
        assert forall|x: i32| fwd.push(x).drop_last() =~= fwd by {}
        assert forall|x: Option<ProcessId>| groups.push(x).drop_last() =~= groups by {}
        if acc.len() > 0 {
            assert(acc.drop_last().push(acc.last()) =~= acc);
        }
        if groups.len() > 0 {
            assert(groups.drop_last().push(groups.last()) =~= groups);
        }
    }
}

/// Exactly-once termination: whatever signals come in between, a relay
/// closes its channel and its pseudo-terminal leader at most once each, and
/// once it has finished it has closed each exactly once, the leader last,
/// and returns the status that it read.
pub proof fn lemma_exactly_once_termination(s: RelayState, events: Seq<Event>)
    requires
        s.phase == Phase::Polling,
        responsive(s, events),
    ensures
        leader_closes(performed(s, events)) <= 1,
        channel_closes(performed(s, events)) <= 1,
        run(s, events).phase is Finished ==> {
            &&& leader_closes(performed(s, events)) == 1
            &&& channel_closes(performed(s, events)) == 1
            &&& performed(s, events).last() is CloseLeader
            &&& status_read(s, events) == Some(run(s, events).phase->Finished_status.raw)
            &&& run(s, events).action() == (Action::Finish {
                status: run(s, events).phase->Finished_status,
            })
        },
{
    lemma_trace_facts(s, events);
}

/// Progress after the read: once the status has been read, every answered
/// action but the taking of a pending signal brings the relay closer to
/// `Finished`, so it finishes after at most `rank` answered actions and
/// four per signal taken; it never polls the channel again.
pub proof fn lemma_read_status_leads_to_finish(s: RelayState, events: Seq<Event>)
    requires
        after_read(s.phase),
        responsive(s, events),
    ensures
        after_read(run(s, events).phase),
        events.len() + rank(run(s, events).phase) <= rank(s.phase) + 4 * signals_taken(events),
        rank(run(s, events).phase) == 0 <==> run(s, events).phase is Finished,
    decreases events.len(),
{
    if events.len() > 0 {
        lemma_read_status_leads_to_finish(s, events.drop_last());
    }
}

/// Signal order: the signals sent to the monitor are exactly those taken
/// while relaying, in the order they came, less those that were consumed or
/// that the group answers show came from the command's own job; each one
/// goes to the monitor. This holds of finished runs too.
pub proof fn lemma_forwarding_keeps_order(s: RelayState, events: Seq<Event>)
    requires
        s.phase == Phase::Polling,
        responsive(s, events),
    ensures
        forall|i: int|
            0 <= i < performed(s, events).len() && #[trigger] performed(s, events)[i] is Forward
                ==> performed(s, events)[i]->Forward_pid == s.monitor_pid,
        !mid_signal(run(s, events).phase) ==> relays(
            s,
            accepted(s, events),
            group_answers(s, events),
            forwarded(s, events),
        ),
{
    lemma_trace_facts(s, events);
}

proof fn lemma_relays_all(
    s: RelayState,
    acc: Seq<SignalEvent>,
    groups: Seq<Option<ProcessId>>,
    fwd: Seq<i32>,
)
    requires
        relays(s, acc, groups, fwd),
        forall|i: int| 0 <= i < acc.len() ==> s.signal_verdict(#[trigger] acc[i]) is Forward,
    ensures
        fwd == acc.map_values(|e: SignalEvent| e.signal),
    decreases acc.len(),
{
    if acc.len() > 0 {
        let prev = acc.drop_last();
        assert(s.signal_verdict(acc[acc.len() - 1]) is Forward);
        assert forall|i: int| 0 <= i < prev.len() implies s.signal_verdict(#[trigger] prev[i]) is Forward by {
            assert(prev[i] == acc[i]);
        }
        assert(fwd.len() > 0 && fwd.last() == acc.last().signal);
        assert(relays(s, prev, groups, fwd.drop_last()));
        lemma_relays_all(s, prev, groups, fwd.drop_last());
        let m = acc.map_values(|e: SignalEvent| e.signal);
        assert(fwd.drop_last().len() == prev.len());
        assert(fwd.len() == m.len());
        assert forall|i: int| 0 <= i < fwd.len() implies fwd[i] == m[i] by {
            if i < fwd.len() - 1 {
                assert(fwd[i] == fwd.drop_last()[i]);
                assert(prev[i] == acc[i]);
            }
        }
        assert(fwd =~= m);
    }
}

/// Signal order, when none is held back: if every signal taken while
/// relaying is one to forward, the monitor is sent all of them, in the
/// order they came, whether or not the relay has finished.
pub proof fn lemma_all_forwarded_in_order(s: RelayState, events: Seq<Event>)
    requires
        s.phase == Phase::Polling,
        responsive(s, events),
        !mid_signal(run(s, events).phase),
        forall|i: int|
            0 <= i < accepted(s, events).len() ==> s.signal_verdict(
                #[trigger] accepted(s, events)[i],
            ) is Forward,
    ensures
        forwarded(s, events) == accepted(s, events).map_values(|e: SignalEvent| e.signal),
{
    lemma_trace_facts(s, events);
    lemma_relays_all(s, accepted(s, events), group_answers(s, events), forwarded(s, events));
}

/// Self-termination: a signal that the command itself explicitly sent is
/// never forwarded, whatever its kind and however it was sent.
pub proof fn lemma_command_signal_not_forwarded(s: RelayState, ev: SignalEvent, read: Option<WaitStatus>)
    requires
        ev.sent_by_process(),
        ev.process is Some,
        ev.process->0 != 0,
        s.command_pid == ev.process,
    ensures
        s.signal_verdict(ev) is Consume || s.signal_verdict(ev) is Drop,
        s.on_signal(ev, read) == (Phase::Draining { read }),
{
}

/// The child-status, continue and window-change kinds of the platform are
/// consumed by a new relay, whoever sent them.
pub proof fn lemma_local_kinds_consumed(s: RelayState, ev: SignalEvent)
    requires
        s.local == crate::signal::LocalSignals::platform_spec(),
        ev.signal == crate::signal::platform_signal(crate::signal::CHILD_STATUS) || ev.signal
            == crate::signal::platform_signal(crate::signal::CONTINUED) || ev.signal
            == crate::signal::platform_signal(crate::signal::WINDOW_CHANGE),
    ensures
        s.signal_verdict(ev) == Verdict::Consume,
{
}

/// Fail-open: when the process group of a signaler other than the command
/// cannot be had, one diagnostic is asked for and then the signal is
/// forwarded to the monitor.
pub proof fn lemma_unknown_group_forwards(
    s: RelayState,
    signal: i32,
    signaler: i32,
    read: Option<WaitStatus>,
)
    requires
        s.phase == (Phase::CheckingGroup { signal, signaler, read }),
        s.command_pid != Some(signaler),
    ensures
        s.step(Event::GroupOf(None)).action() == (Action::ReportUnknownGroup { pid: signaler }),
        s.step(Event::GroupOf(None)).step(Event::Completed).action() == (Action::Forward {
            pid: s.monitor_pid,
            signal,
        }),
        !s.self_terminating(Some(signaler), None),
{
}

/// Terminating-signal propagation: a relay sends itself at most one signal,
/// the one that terminated the command, and none when the command exited;
/// it applies default dispositions only after that send succeeded, and
/// before it closes the pseudo-terminal leader.
pub proof fn lemma_fatal_signal_propagation(s: RelayState, events: Seq<Event>)
    requires
        s.phase == Phase::Polling,
        responsive(s, events),
    ensures
        self_signals(performed(s, events)) <= 1,
        status_read(s, events) is None ==> self_signals(performed(s, events)) == 0,
        status_read(s, events) is Some ==> forall|i: int|
            0 <= i < performed(s, events).len() && #[trigger] performed(s, events)[i] is SignalSelf
                ==> performed(s, events)[i] == (Action::SignalSelf {
                pid: s.sudo_pid,
                signal: termination_signal(status_read(s, events)->0)->0,
            }),
        emulations(performed(s, events)) > 0 ==> self_signals_sent(s, events) == 1,
        run(s, events).phase is Finished ==> {
            &&& self_signals(performed(s, events)) == if termination_signal(
                status_read(s, events)->0,
            ) is Some {
                1nat
            } else {
                0nat
            }
            &&& forall|i: int, j: int|
                0 <= i < performed(s, events).len() && 0 <= j < performed(s, events).len()
                    && #[trigger] performed(s, events)[i] is EmulateDefault
                    && #[trigger] performed(s, events)[j] is CloseLeader ==> i < j
        },
{
    lemma_trace_facts(s, events);
    let acts = performed(s, events);
    if self_signals(acts) == 0 {
        lemma_none_of_kind(acts, false);
    }
    if run(s, events).phase is Finished {
        let prev = events.drop_last();
        assert(acts.drop_last() =~= performed(s, prev));
        assert(leader_closes(acts.drop_last()) == 0);
        lemma_none_of_kind(acts.drop_last(), true);
        assert forall|i: int, j: int|
            0 <= i < acts.len() && 0 <= j < acts.len() && #[trigger] acts[i] is EmulateDefault
                && #[trigger] acts[j] is CloseLeader implies i < j by {
            if j < acts.len() - 1 {
                assert(acts[j] == acts.drop_last()[j]);
            }
        }
    }
}

/// The signals pending after a successful self-signal, in the order taken.
pub open spec fn pending_at_exit(s: RelayState, events: Seq<Event>) -> Seq<i32>
    decreases events.len(),
{
    if events.len() == 0 {
        Seq::empty()
    } else {
        let before = pending_at_exit(s, events.drop_last());
        match (run(s, events.drop_last()).phase, events.last()) {
            (Phase::Emulating { .. }, Event::Signal(ev)) => before.push(ev.signal),
            _ => before,
        }
    }
}

/// The signals whose default disposition was applied, in order.
pub open spec fn emulated(s: RelayState, events: Seq<Event>) -> Seq<i32>
    decreases events.len(),
{
    if events.len() == 0 {
        Seq::empty()
    } else {
        let before = emulated(s, events.drop_last());
        match run(s, events.drop_last()).action() {
            Action::EmulateDefault { signal } => before.push(signal),
            _ => before,
        }
    }
}

/// Emulation of pending signals: the default disposition is applied to
/// every signal pending after the self-signal, each once, in the order
/// they were taken (the one being handled aside).
pub proof fn lemma_pending_signals_emulated(s: RelayState, events: Seq<Event>)
    requires
        s.phase == Phase::Polling,
        responsive(s, events),
    ensures
        run(s, events).phase is EmulatingOne ==> pending_at_exit(s, events) == emulated(
            s,
            events,
        ).push(run(s, events).phase->EmulatingOne_signal),
        !(run(s, events).phase is EmulatingOne) ==> pending_at_exit(s, events) == emulated(
            s,
            events,
        ),
    decreases events.len(),
{
    if events.len() > 0 {
        let prev = events.drop_last();
        lemma_pending_signals_emulated(s, prev);
        let em = emulated(s, prev);
        if run(s, prev).phase is EmulatingOne {
            assert(em.push(run(s, prev).phase->EmulatingOne_signal) =~= emulated(s, events));
        }
    }
}

} // verus!

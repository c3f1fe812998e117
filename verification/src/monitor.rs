//! The decisions of the background monitor: when to wait, probe, connect,
//! poll and disconnect, and how the retry back-off moves. The caller performs
//! each action and reports what came of it as the next event.

use vstd::prelude::*;

use crate::config::{backoff_after, next_backoff, Config, MONITOR_TICK_MS};
use crate::state::ConnState;

verus! {

/// What the monitor is waiting for.
#[derive(PartialEq, Eq, Structural, Clone, Copy, Debug)]
pub enum MonitorPhase {
    /// Sleeping out the back-off (a reconnect request cuts it short).
    Waiting,
    /// Probing the configured ports for one that accepts TCP.
    Probing,
    /// Trying the open ports in turn until one connects and subscribes.
    Connecting,
    /// Polling a live connection.
    Connected,
    /// Closing the connection.
    Disconnecting,
}

/// What came of the last action.
#[derive(PartialEq, Eq, Structural, Clone, Copy, Debug)]
pub enum MonitorEvent {
    /// The back-off sleep ran out.
    WaitElapsed,
    /// The settings changed: reconnect with them.
    ReconnectRequested,
    /// The port probe finished; whether any port answered.
    PortsProbed { any_open: bool },
    /// The connection attempts finished; whether one of them succeeded.
    ConnectAttempted { connected: bool },
    /// A poll interval passed; whether the client is still connected.
    PollElapsed { client_connected: bool },
    /// The connection is closed.
    Disconnected,
}

/// What the caller is to do next.
#[derive(PartialEq, Eq, Structural, Clone, Copy, Debug)]
pub enum MonitorAction {
    /// Sleep this long, or until a reconnect request.
    Sleep { ms: u64 },
    /// Probe the configured ports.
    ProbePorts,
    /// Try the open ports in increasing order until one connects.
    ConnectCandidates,
    /// Wait this long, or until a reconnect request, then poll.
    Poll { ms: u64 },
    /// Drop the subscriptions and disconnect.
    Disconnect,
}

/// One decision: the connection state to report (if any) and the next action.
#[derive(PartialEq, Eq, Structural, Clone, Copy, Debug)]
pub struct MonitorStep {
    pub report: Option<ConnState>,
    pub action: MonitorAction,
}

/// The monitor's state between two events.
#[derive(PartialEq, Eq, Structural, Clone, Copy, Debug)]
pub struct Monitor {
    pub phase: MonitorPhase,
    pub backoff_ms: u64,
    pub backoff_initial_ms: u64,
    pub backoff_max_ms: u64,
}

/// The action that a phase is waiting on.
pub open spec fn pending_action(m: Monitor) -> MonitorAction {
    match m.phase {
        MonitorPhase::Waiting => MonitorAction::Sleep { ms: m.backoff_ms },
        MonitorPhase::Probing => MonitorAction::ProbePorts,
        MonitorPhase::Connecting => MonitorAction::ConnectCandidates,
        MonitorPhase::Connected => MonitorAction::Poll { ms: MONITOR_TICK_MS },
        MonitorPhase::Disconnecting => MonitorAction::Disconnect,
    }
}

/// After a failed round: report idle, lengthen the back-off and sleep it.
pub open spec fn after_failure(m: Monitor) -> (Monitor, MonitorStep) {
    let b = backoff_after(m.backoff_ms, m.backoff_max_ms);
    (
        Monitor { phase: MonitorPhase::Waiting, backoff_ms: b, ..m },
        MonitorStep { report: Some(ConnState::Idle), action: MonitorAction::Sleep { ms: b } },
    )
}

/// The transition table of the monitor. An event that the phase does not
/// wait for changes nothing and repeats the pending action.
pub open spec fn monitor_next(m: Monitor, e: MonitorEvent) -> (Monitor, MonitorStep) {
    let unchanged = (m, MonitorStep { report: None, action: pending_action(m) });
    match m.phase {
        MonitorPhase::Waiting => match e {
            MonitorEvent::WaitElapsed => (
                Monitor { phase: MonitorPhase::Probing, ..m },
                MonitorStep { report: None, action: MonitorAction::ProbePorts },
            ),
            MonitorEvent::ReconnectRequested => (
                Monitor { phase: MonitorPhase::Probing, backoff_ms: m.backoff_initial_ms, ..m },
                MonitorStep { report: None, action: MonitorAction::ProbePorts },
            ),
            _ => unchanged,
        },
        MonitorPhase::Probing => match e {
            MonitorEvent::PortsProbed { any_open } => if any_open {
                (
                    Monitor { phase: MonitorPhase::Connecting, ..m },
                    MonitorStep {
                        report: Some(ConnState::Scanning),
                        action: MonitorAction::ConnectCandidates,
                    },
                )
            } else {
                after_failure(m)
            },
            _ => unchanged,
        },
        MonitorPhase::Connecting => match e {
            MonitorEvent::ConnectAttempted { connected } => if connected {
                (
                    Monitor {
                        phase: MonitorPhase::Connected,
                        backoff_ms: m.backoff_initial_ms,
                        ..m
                    },
                    MonitorStep {
                        report: Some(ConnState::Connected),
                        action: MonitorAction::Poll { ms: MONITOR_TICK_MS },
                    },
                )
            } else {
                after_failure(m)
            },
            _ => unchanged,
        },
        MonitorPhase::Connected => match e {
            MonitorEvent::PollElapsed { client_connected } => if client_connected {
                unchanged
            } else {
                (
                    Monitor { phase: MonitorPhase::Disconnecting, ..m },
                    MonitorStep { report: None, action: MonitorAction::Disconnect },
                )
            },
            MonitorEvent::ReconnectRequested => (
                Monitor { phase: MonitorPhase::Disconnecting, ..m },
                MonitorStep { report: None, action: MonitorAction::Disconnect },
            ),
            _ => unchanged,
        },
        MonitorPhase::Disconnecting => match e {
            MonitorEvent::Disconnected => (
                Monitor { phase: MonitorPhase::Waiting, ..m },
                MonitorStep {
                    report: Some(ConnState::Idle),
                    action: MonitorAction::Sleep { ms: m.backoff_ms },
                },
            ),
            _ => unchanged,
        },
    }
}

impl Monitor {
    /// The back-off is either its initial value or within its cap.
    pub open spec fn wf(&self) -> bool {
        self.backoff_ms == self.backoff_initial_ms || self.backoff_ms <= self.backoff_max_ms
    }

    /// A monitor about to sleep out the initial back-off of `config`.
    pub fn new(config: &Config) -> (m: Monitor)
        ensures
            m.wf(),
            m.phase == MonitorPhase::Waiting,
            m.backoff_ms == config.backoff_initial_ms,
            m.backoff_initial_ms == config.backoff_initial_ms,
            m.backoff_max_ms == config.backoff_max_ms,
    {
        Monitor {
            phase: MonitorPhase::Waiting,
            backoff_ms: config.backoff_initial_ms,
            backoff_initial_ms: config.backoff_initial_ms,
            backoff_max_ms: config.backoff_max_ms,
        }
    }

    /// The action the current phase is waiting on.
    pub fn pending(&self) -> (a: MonitorAction)
        ensures
            a == pending_action(*self),
    {
        match self.phase {
            MonitorPhase::Waiting => MonitorAction::Sleep { ms: self.backoff_ms },
            MonitorPhase::Probing => MonitorAction::ProbePorts,
            MonitorPhase::Connecting => MonitorAction::ConnectCandidates,
            MonitorPhase::Connected => MonitorAction::Poll { ms: MONITOR_TICK_MS },
            MonitorPhase::Disconnecting => MonitorAction::Disconnect,
        }
    }

    fn fail(&mut self) -> (s: MonitorStep)
        ensures
            (*final(self), s) == after_failure(*old(self)),
    {
        self.backoff_ms = next_backoff(self.backoff_ms, self.backoff_max_ms);
        self.phase = MonitorPhase::Waiting;
        MonitorStep { report: Some(ConnState::Idle), action: MonitorAction::Sleep { ms: self.backoff_ms } }
    }

    /// Takes in what came of the last action and decides the next one.
    pub fn step(&mut self, event: MonitorEvent) -> (s: MonitorStep)
        ensures
            (*final(self), s) == monitor_next(*old(self), event),
    {
        let unchanged = MonitorStep { report: None, action: self.pending() };
        match self.phase {
            MonitorPhase::Waiting => match event {
                MonitorEvent::WaitElapsed => {
                    self.phase = MonitorPhase::Probing;
                    MonitorStep { report: None, action: MonitorAction::ProbePorts }
                },
                MonitorEvent::ReconnectRequested => {
                    self.phase = MonitorPhase::Probing;
                    self.backoff_ms = self.backoff_initial_ms;
                    MonitorStep { report: None, action: MonitorAction::ProbePorts }
                },
                _ => unchanged,
            },
            MonitorPhase::Probing => match event {
                MonitorEvent::PortsProbed { any_open } => {
                    if any_open {
                        self.phase = MonitorPhase::Connecting;
                        MonitorStep {
                            report: Some(ConnState::Scanning),
                            action: MonitorAction::ConnectCandidates,
                        }
                    } else {
                        self.fail()
                    }
                },
                _ => unchanged,
            },
            MonitorPhase::Connecting => match event {
                MonitorEvent::ConnectAttempted { connected } => {
                    if connected {
                        self.phase = MonitorPhase::Connected;
                        self.backoff_ms = self.backoff_initial_ms;
                        MonitorStep {
                            report: Some(ConnState::Connected),
                            action: MonitorAction::Poll { ms: MONITOR_TICK_MS },
                        }
                    } else {
                        self.fail()
                    }
                },
                _ => unchanged,
            },
            MonitorPhase::Connected => match event {
                MonitorEvent::PollElapsed { client_connected } => {
                    if client_connected {
                        unchanged
                    } else {
                        self.phase = MonitorPhase::Disconnecting;
                        MonitorStep { report: None, action: MonitorAction::Disconnect }
                    }
                },
                MonitorEvent::ReconnectRequested => {
                    self.phase = MonitorPhase::Disconnecting;
                    MonitorStep { report: None, action: MonitorAction::Disconnect }
                },
                _ => unchanged,
            },
            MonitorPhase::Disconnecting => match event {
                MonitorEvent::Disconnected => {
                    self.phase = MonitorPhase::Waiting;
                    MonitorStep {
                        report: Some(ConnState::Idle),
                        action: MonitorAction::Sleep { ms: self.backoff_ms },
                    }
                },
                _ => unchanged,
            },
        }
    }
}

/// Law: every step keeps the back-off either at its initial value or within
/// its cap, and never changes the configured limits.
pub proof fn lemma_step_keeps_backoff_bounded(m: Monitor, e: MonitorEvent)
    requires
        m.wf(),
    ensures
        monitor_next(m, e).0.wf(),
        monitor_next(m, e).0.backoff_initial_ms == m.backoff_initial_ms,
        monitor_next(m, e).0.backoff_max_ms == m.backoff_max_ms,
{
}

/// Law: a successful connection reports `Connected`, starts polling and
/// resets the back-off; a failed round reports `Idle` and sleeps a back-off
/// twice as long, up to the cap; a reconnect request while waiting resets the
/// back-off and probes at once.
pub proof fn lemma_connection_outcomes(m: Monitor)
    ensures
        m.phase == MonitorPhase::Connecting ==> {
            let (n, s) = monitor_next(m, MonitorEvent::ConnectAttempted { connected: true });
            &&& n.phase == MonitorPhase::Connected
            &&& n.backoff_ms == m.backoff_initial_ms
            &&& s.report == Some(ConnState::Connected)
        },
        m.phase == MonitorPhase::Connecting || m.phase == MonitorPhase::Probing ==> {
            let e = if m.phase == MonitorPhase::Connecting {
                MonitorEvent::ConnectAttempted { connected: false }
            } else {
                MonitorEvent::PortsProbed { any_open: false }
            };
            let (n, s) = monitor_next(m, e);
            &&& n.phase == MonitorPhase::Waiting
            &&& n.backoff_ms == backoff_after(m.backoff_ms, m.backoff_max_ms)
            &&& n.backoff_ms <= m.backoff_max_ms
            &&& s.report == Some(ConnState::Idle)
            &&& s.action == MonitorAction::Sleep { ms: n.backoff_ms }
        },
        m.phase == MonitorPhase::Waiting ==> {
            let (n, s) = monitor_next(m, MonitorEvent::ReconnectRequested);
            &&& n.phase == MonitorPhase::Probing
            &&& n.backoff_ms == m.backoff_initial_ms
            &&& s.action == MonitorAction::ProbePorts
        },
{
}

/// Law: the remaining transitions. A finished wait probes with the back-off
/// unchanged; answering ports report `Scanning` and start connecting; a live
/// connection keeps polling every tick; a lost connection or a reconnect
/// request disconnects without a report; a closed connection reports `Idle`
/// and sleeps the current back-off.
pub proof fn lemma_monitor_transitions(m: Monitor)
    ensures
        m.phase == MonitorPhase::Waiting ==> {
            let (n, s) = monitor_next(m, MonitorEvent::WaitElapsed);
            &&& n == Monitor { phase: MonitorPhase::Probing, ..m }
            &&& s == MonitorStep { report: None, action: MonitorAction::ProbePorts }
        },
        m.phase == MonitorPhase::Probing ==> {
            let (n, s) = monitor_next(m, MonitorEvent::PortsProbed { any_open: true });
            &&& n == Monitor { phase: MonitorPhase::Connecting, ..m }
            &&& s == MonitorStep {
                report: Some(ConnState::Scanning),
                action: MonitorAction::ConnectCandidates,
            }
        },
        m.phase == MonitorPhase::Connected ==> {
            let (n, s) = monitor_next(m, MonitorEvent::PollElapsed { client_connected: true });
            &&& n == m
            &&& s == MonitorStep { report: None, action: MonitorAction::Poll { ms: 1500 } }
        },
        m.phase == MonitorPhase::Connected ==> {
            let (n1, s1) = monitor_next(m, MonitorEvent::PollElapsed { client_connected: false });
            let (n2, s2) = monitor_next(m, MonitorEvent::ReconnectRequested);
            &&& n1 == Monitor { phase: MonitorPhase::Disconnecting, ..m }
            &&& n2 == n1
            &&& s1 == MonitorStep { report: None, action: MonitorAction::Disconnect }
            &&& s2 == s1
        },
        m.phase == MonitorPhase::Disconnecting ==> {
            let (n, s) = monitor_next(m, MonitorEvent::Disconnected);
            &&& n == Monitor { phase: MonitorPhase::Waiting, ..m }
            &&& s == MonitorStep {
                report: Some(ConnState::Idle),
                action: MonitorAction::Sleep { ms: m.backoff_ms },
            }
        },
{
}

/// The outcomes the caller can report while the monitor is in a phase.
pub open spec fn awaited(p: MonitorPhase, e: MonitorEvent) -> bool {
    match p {
        MonitorPhase::Waiting => e == MonitorEvent::WaitElapsed || e
            == MonitorEvent::ReconnectRequested,
        MonitorPhase::Probing => e is PortsProbed,
        MonitorPhase::Connecting => e is ConnectAttempted,
        MonitorPhase::Connected => e is PollElapsed || e == MonitorEvent::ReconnectRequested,
        MonitorPhase::Disconnecting => e == MonitorEvent::Disconnected,
    }
}

/// `es` is a run of awaited outcomes from `m` in which the connection is
/// never found still alive on a poll.
pub open spec fn run_without_live_poll(m: Monitor, es: Seq<MonitorEvent>) -> bool
    decreases es.len(),
{
    es.len() == 0 || {
        &&& awaited(m.phase, es[0])
        &&& es[0] != (MonitorEvent::PollElapsed { client_connected: true })
        &&& run_without_live_poll(monitor_next(m, es[0]).0, es.drop_first())
    }
}

/// Along `es` from `m`, the monitor is probing at some point (before or
/// after some prefix of the outcomes).
pub open spec fn visits_probing(m: Monitor, es: Seq<MonitorEvent>) -> bool
    decreases es.len(),
{
    m.phase == MonitorPhase::Probing || (es.len() > 0 && visits_probing(
        monitor_next(m, es[0]).0,
        es.drop_first(),
    ))
}

/// How many awaited outcomes a phase is at most from probing again, as long
/// as no poll finds the connection alive.
pub open spec fn steps_to_probing(p: MonitorPhase) -> nat {
    match p {
        MonitorPhase::Probing => 0,
        MonitorPhase::Waiting => 1,
        MonitorPhase::Disconnecting => 2,
        MonitorPhase::Connected => 3,
        MonitorPhase::Connecting => 4,
    }
}

/// Law: the monitor never gets stuck. Every step's action is the one the
/// new phase waits on; every awaited outcome moves the monitor on, except a
/// poll that finds the connection alive; and whatever the outcomes, unless a
/// poll finds the connection alive, the monitor is probing again within
/// four outcomes, so it keeps retrying for ever.
pub proof fn lemma_monitor_never_stuck(m: Monitor, e: MonitorEvent, es: Seq<MonitorEvent>)
    ensures
        monitor_next(m, e).1.action == pending_action(monitor_next(m, e).0),
        awaited(m.phase, e) && e != (MonitorEvent::PollElapsed { client_connected: true })
            ==> monitor_next(m, e).0.phase != m.phase,
        run_without_live_poll(m, es) && es.len() >= 4 ==> visits_probing(m, es),
{
    if run_without_live_poll(m, es) && es.len() >= steps_to_probing(m.phase) {
        lemma_back_to_probing(m, es);
    }
}

proof fn lemma_back_to_probing(m: Monitor, es: Seq<MonitorEvent>)
    requires
        run_without_live_poll(m, es),
        es.len() >= steps_to_probing(m.phase),
    ensures
        visits_probing(m, es),
    decreases es.len(),
{
    if m.phase != MonitorPhase::Probing {
        let n = monitor_next(m, es[0]).0;
        assert(steps_to_probing(n.phase) < steps_to_probing(m.phase));
        lemma_back_to_probing(n, es.drop_first());
    }
}

} // verus!

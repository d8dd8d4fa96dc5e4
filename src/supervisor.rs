//! Start, stop and status of the background daemon, as a state machine.
//!
//! The caller performs each [`SupervisorAction`] (read the pid file, probe a
//! process, spawn the daemon, wait, signal, register with the service
//! manager) and hands the answer back as a [`SupervisorEvent`]. The machine
//! decides what happens next, until it finishes with an [`Outcome`].
//! A restart is a stop followed by a start.
use vstd::prelude::*;

verus! {

/// How long to let a spawned or signalled daemon settle before probing again.
pub const SETTLE_MILLIS: u64 = 1000;

#[derive(Clone, Copy, Debug, PartialEq, Eq)]
pub enum Operation {
    Status,
    Start,
    Stop,
}

/// The answer of a liveness probe for a process id.
#[derive(Clone, Copy, Debug, PartialEq, Eq)]
pub enum Liveness {
    Alive,
    Gone,
    /// The probe itself could not be run; counted as not running.
    Unknown,
}

#[derive(Clone, Copy, Debug, PartialEq, Eq)]
pub enum SupervisorEvent {
    /// The pid file was read: the recorded pid, or `None` when the file is
    /// absent or does not hold a pid.
    PidRead(Option<u32>),
    Probed(Liveness),
    /// The daemon process was spawned (`true`) or could not be (`false`).
    Spawned(bool),
    Slept,
    /// The termination request was sent (`true`) or could not be (`false`).
    Signalled(bool),
    /// The service manager was asked to load or unload the descriptor; its
    /// answer does not matter.
    ServiceDone,
}

#[derive(Clone, Copy, Debug, PartialEq, Eq)]
pub enum Outcome {
    /// Status: the daemon runs with this pid.
    Running(u32),
    /// Status, or stop: no daemon runs.
    NotRunning,
    /// Start: a daemon already runs with this pid; nothing was spawned.
    AlreadyRunning(u32),
    /// Start: the daemon was spawned and answers with this pid.
    Started(u32),
    /// Start: the spawned daemon does not answer.
    StartFailed,
    /// Start: the daemon could not be spawned.
    SpawnFailed,
    /// Stop: the daemon with this pid is gone.
    Stopped(u32),
    /// Stop: the daemon with this pid still answers after the request.
    StillRunning(u32),
    /// Stop: the termination request could not be sent.
    SignalFailed(u32),
    /// An event arrived that the machine was not waiting for.
    OutOfOrder,
}

#[derive(Clone, Copy, Debug, PartialEq, Eq)]
pub enum SupervisorAction {
    ReadPid,
    Probe(u32),
    Spawn,
    Sleep(u64),
    /// Ask the process to terminate (no forced kill).
    Signal(u32),
    LoadService,
    UnloadService,
    Finish(Outcome),
}

#[derive(Clone, Copy, Debug, PartialEq, Eq)]
pub enum SupervisorState {
    /// Waiting for the pid file.
    Checking(Operation),
    /// Waiting for the probe of the recorded pid.
    Probing(Operation, u32),
    /// Start: waiting for the spawn.
    Spawning,
    /// Start: waiting for the spawned daemon to settle.
    Settling,
    /// Start: waiting for the pid file the new daemon wrote.
    Confirming,
    /// Start: waiting for the probe of the new daemon.
    ConfirmProbe(u32),
    /// Start: waiting for the service manager.
    Loading(u32),
    /// Stop: waiting for the termination request.
    Signalling(u32),
    /// Stop: waiting for the daemon to exit.
    Draining(u32),
    /// Stop: waiting for the probe after the request.
    Rechecking(u32),
    /// Stop: waiting for the service manager.
    Unloading(u32),
    Done,
}

/// The first state and action of an operation: every operation begins by
/// reading the pid file.
pub open spec fn supervisor_begin(op: Operation) -> (SupervisorState, SupervisorAction) {
    (SupervisorState::Checking(op), SupervisorAction::ReadPid)
}

pub open spec fn finish(o: Outcome) -> (SupervisorState, SupervisorAction) {
    (SupervisorState::Done, SupervisorAction::Finish(o))
}

/// After a spawn, start confirms the daemon: wait, then read the pid file.
pub open spec fn after_spawn(ok: bool) -> (SupervisorState, SupervisorAction) {
    if ok {
        (SupervisorState::Settling, SupervisorAction::Sleep(SETTLE_MILLIS))
    } else {
        finish(Outcome::SpawnFailed)
    }
}

/// The transition table.
pub open spec fn supervisor_next(s: SupervisorState, e: SupervisorEvent) -> (
    SupervisorState,
    SupervisorAction,
) {
    match (s, e) {
        (SupervisorState::Checking(op), SupervisorEvent::PidRead(found)) => match found {
            Some(pid) => (SupervisorState::Probing(op, pid), SupervisorAction::Probe(pid)),
            None => match op {
                Operation::Start => (SupervisorState::Spawning, SupervisorAction::Spawn),
                _ => finish(Outcome::NotRunning),
            },
        },
        (SupervisorState::Probing(op, pid), SupervisorEvent::Probed(l)) => {
            let alive = l == Liveness::Alive;
            match op {
                Operation::Status => if alive {
                    finish(Outcome::Running(pid))
                } else {
                    finish(Outcome::NotRunning)
                },
                Operation::Start => if alive {
                    finish(Outcome::AlreadyRunning(pid))
                } else {
                    (SupervisorState::Spawning, SupervisorAction::Spawn)
                },
                Operation::Stop => if alive {
                    (SupervisorState::Signalling(pid), SupervisorAction::Signal(pid))
                } else {
                    finish(Outcome::NotRunning)
                },
            }
        },
        (SupervisorState::Spawning, SupervisorEvent::Spawned(ok)) => after_spawn(ok),
        (SupervisorState::Settling, SupervisorEvent::Slept) => (
            SupervisorState::Confirming,
            SupervisorAction::ReadPid,
        ),
        (SupervisorState::Confirming, SupervisorEvent::PidRead(found)) => match found {
            Some(pid) => (SupervisorState::ConfirmProbe(pid), SupervisorAction::Probe(pid)),
            None => finish(Outcome::StartFailed),
        },
        (SupervisorState::ConfirmProbe(pid), SupervisorEvent::Probed(l)) => if l
            == Liveness::Alive {
            (SupervisorState::Loading(pid), SupervisorAction::LoadService)
        } else {
            finish(Outcome::StartFailed)
        },
        (SupervisorState::Loading(pid), SupervisorEvent::ServiceDone) => finish(
            Outcome::Started(pid),
        ),
        (SupervisorState::Signalling(pid), SupervisorEvent::Signalled(ok)) => if ok {
            (SupervisorState::Draining(pid), SupervisorAction::Sleep(SETTLE_MILLIS))
        } else {
            finish(Outcome::SignalFailed(pid))
        },
        (SupervisorState::Draining(pid), SupervisorEvent::Slept) => (
            SupervisorState::Rechecking(pid),
            SupervisorAction::Probe(pid),
        ),
        (SupervisorState::Rechecking(pid), SupervisorEvent::Probed(l)) => if l
            == Liveness::Alive {
            finish(Outcome::StillRunning(pid))
        } else {
            (SupervisorState::Unloading(pid), SupervisorAction::UnloadService)
        },
        (SupervisorState::Unloading(pid), SupervisorEvent::ServiceDone) => finish(
            Outcome::Stopped(pid),
        ),
        _ => finish(Outcome::OutOfOrder),
    }
}

/// The actions taken from state `s` when the events `events` arrive in turn.
pub open spec fn run(s: SupervisorState, events: Seq<SupervisorEvent>) -> Seq<SupervisorAction>
    decreases events.len(),
{
    if events.len() == 0 {
        seq![]
    } else {
        let (t, a) = supervisor_next(s, events[0]);
        seq![a] + run(t, events.drop_first())
    }
}

/// Every action of operation `op`, the first included, when the answers
/// `events` come back in turn.
pub open spec fn trace(op: Operation, events: Seq<SupervisorEvent>) -> Seq<SupervisorAction> {
    let (s, a) = supervisor_begin(op);
    seq![a] + run(s, events)
}

fn finished(o: Outcome) -> (r: (SupervisorState, SupervisorAction))
    ensures
        r == finish(o),
{
    (SupervisorState::Done, SupervisorAction::Finish(o))
}

impl SupervisorState {
    /// Begins an operation.
    pub fn begin(op: Operation) -> (r: (SupervisorState, SupervisorAction))
        ensures
            r == supervisor_begin(op),
    {
        (SupervisorState::Checking(op), SupervisorAction::ReadPid)
    }

    /// Takes the answer to the last action; gives the next state and action.
    pub fn step(self, e: SupervisorEvent) -> (r: (SupervisorState, SupervisorAction))
        ensures
            r == supervisor_next(self, e),
    {
        match self {
            SupervisorState::Checking(op) => match e {
                SupervisorEvent::PidRead(Some(pid)) => (
                    SupervisorState::Probing(op, pid),
                    SupervisorAction::Probe(pid),
                ),
                SupervisorEvent::PidRead(None) => match op {
                    Operation::Start => (SupervisorState::Spawning, SupervisorAction::Spawn),
                    _ => finished(Outcome::NotRunning),
                },
                _ => finished(Outcome::OutOfOrder),
            },
            SupervisorState::Probing(op, pid) => match e {
                SupervisorEvent::Probed(l) => {
                    let alive = match l {
                        Liveness::Alive => true,
                        _ => false,
                    };
                    match op {
                        Operation::Status => if alive {
                            finished(Outcome::Running(pid))
                        } else {
                            finished(Outcome::NotRunning)
                        },
                        Operation::Start => if alive {
                            finished(Outcome::AlreadyRunning(pid))
                        } else {
                            (SupervisorState::Spawning, SupervisorAction::Spawn)
                        },
                        Operation::Stop => if alive {
                            (SupervisorState::Signalling(pid), SupervisorAction::Signal(pid))
                        } else {
                            finished(Outcome::NotRunning)
                        },
                    }
                },
                _ => finished(Outcome::OutOfOrder),
            },
            SupervisorState::Spawning => match e {
                SupervisorEvent::Spawned(true) => (
                    SupervisorState::Settling,
                    SupervisorAction::Sleep(SETTLE_MILLIS),
                ),
                SupervisorEvent::Spawned(false) => finished(Outcome::SpawnFailed),
                _ => finished(Outcome::OutOfOrder),
            },
            SupervisorState::Settling => match e {
                SupervisorEvent::Slept => (SupervisorState::Confirming, SupervisorAction::ReadPid),
                _ => finished(Outcome::OutOfOrder),
            },
            SupervisorState::Confirming => match e {
                SupervisorEvent::PidRead(Some(pid)) => (
                    SupervisorState::ConfirmProbe(pid),
                    SupervisorAction::Probe(pid),
                ),
                SupervisorEvent::PidRead(None) => finished(Outcome::StartFailed),
                _ => finished(Outcome::OutOfOrder),
            },
            SupervisorState::ConfirmProbe(pid) => match e {
                SupervisorEvent::Probed(Liveness::Alive) => (
                    SupervisorState::Loading(pid),
                    SupervisorAction::LoadService,
                ),
                SupervisorEvent::Probed(_) => finished(Outcome::StartFailed),
                _ => finished(Outcome::OutOfOrder),
            },
            SupervisorState::Loading(pid) => match e {
                SupervisorEvent::ServiceDone => finished(Outcome::Started(pid)),
                _ => finished(Outcome::OutOfOrder),
            },
            SupervisorState::Signalling(pid) => match e {
                SupervisorEvent::Signalled(true) => (
                    SupervisorState::Draining(pid),
                    SupervisorAction::Sleep(SETTLE_MILLIS),
                ),
                SupervisorEvent::Signalled(false) => finished(Outcome::SignalFailed(pid)),
                _ => finished(Outcome::OutOfOrder),
            },
            SupervisorState::Draining(pid) => match e {
                SupervisorEvent::Slept => (
                    SupervisorState::Rechecking(pid),
                    SupervisorAction::Probe(pid),
                ),
                _ => finished(Outcome::OutOfOrder),
            },
            SupervisorState::Rechecking(pid) => match e {
                SupervisorEvent::Probed(Liveness::Alive) => finished(Outcome::StillRunning(pid)),
                SupervisorEvent::Probed(_) => (
                    SupervisorState::Unloading(pid),
                    SupervisorAction::UnloadService,
                ),
                _ => finished(Outcome::OutOfOrder),
            },
            SupervisorState::Unloading(pid) => match e {
                SupervisorEvent::ServiceDone => finished(Outcome::Stopped(pid)),
                _ => finished(Outcome::OutOfOrder),
            },
            SupervisorState::Done => finished(Outcome::OutOfOrder),
        }
    }
}

proof fn lemma_run_one(s: SupervisorState, e: SupervisorEvent)
    ensures
        run(s, seq![e]) == seq![supervisor_next(s, e).1],
{
    let es = seq![e];
    assert(es.drop_first() =~= Seq::<SupervisorEvent>::empty());
    assert(run(supervisor_next(s, e).0, es.drop_first()) =~= seq![]);
    assert(run(s, es) =~= seq![supervisor_next(s, e).1]);
}

proof fn lemma_run_two(s: SupervisorState, e1: SupervisorEvent, e2: SupervisorEvent)
    ensures
        run(s, seq![e1, e2]) == seq![
            supervisor_next(s, e1).1,
            supervisor_next(supervisor_next(s, e1).0, e2).1,
        ],
{
    let es = seq![e1, e2];
    assert(es.drop_first() =~= seq![e2]);
    lemma_run_one(supervisor_next(s, e1).0, e2);
    assert(run(s, es) =~= seq![
        supervisor_next(s, e1).1,
        supervisor_next(supervisor_next(s, e1).0, e2).1,
    ]);
}

/// Starting while a daemon answers at the recorded pid does nothing: the
/// pid file is read, the pid probed, and "already running" reported; no
/// process is spawned and nothing is written. This is what a second start
/// meets right after a first one succeeded.
pub proof fn lemma_start_twice_is_noop(pid: u32)
    ensures
        trace(
            Operation::Start,
            seq![SupervisorEvent::PidRead(Some(pid)), SupervisorEvent::Probed(Liveness::Alive)],
        ) == seq![
            SupervisorAction::ReadPid,
            SupervisorAction::Probe(pid),
            SupervisorAction::Finish(Outcome::AlreadyRunning(pid)),
        ],
{
    lemma_run_two(
        SupervisorState::Checking(Operation::Start),
        SupervisorEvent::PidRead(Some(pid)),
        SupervisorEvent::Probed(Liveness::Alive),
    );
    assert(trace(
        Operation::Start,
        seq![SupervisorEvent::PidRead(Some(pid)), SupervisorEvent::Probed(Liveness::Alive)],
    ) =~= seq![
        SupervisorAction::ReadPid,
        SupervisorAction::Probe(pid),
        SupervisorAction::Finish(Outcome::AlreadyRunning(pid)),
    ]);
}

/// Stopping when no daemon runs is a no-op that reports "not running": with
/// no recorded pid, or with a recorded pid whose process is gone or cannot be
/// probed, nothing is signalled and the service manager is not asked.
pub proof fn lemma_stop_when_stopped_is_noop(pid: u32, l: Liveness)
    requires
        l != Liveness::Alive,
    ensures
        trace(Operation::Stop, seq![SupervisorEvent::PidRead(None)]) == seq![
            SupervisorAction::ReadPid,
            SupervisorAction::Finish(Outcome::NotRunning),
        ],
        trace(
            Operation::Stop,
            seq![SupervisorEvent::PidRead(Some(pid)), SupervisorEvent::Probed(l)],
        ) == seq![
            SupervisorAction::ReadPid,
            SupervisorAction::Probe(pid),
            SupervisorAction::Finish(Outcome::NotRunning),
        ],
{
    lemma_run_one(SupervisorState::Checking(Operation::Stop), SupervisorEvent::PidRead(None));
    lemma_run_two(
        SupervisorState::Checking(Operation::Stop),
        SupervisorEvent::PidRead(Some(pid)),
        SupervisorEvent::Probed(l),
    );
    assert(trace(Operation::Stop, seq![SupervisorEvent::PidRead(None)]) =~= seq![
        SupervisorAction::ReadPid,
        SupervisorAction::Finish(Outcome::NotRunning),
    ]);
    assert(trace(
        Operation::Stop,
        seq![SupervisorEvent::PidRead(Some(pid)), SupervisorEvent::Probed(l)],
    ) =~= seq![
        SupervisorAction::ReadPid,
        SupervisorAction::Probe(pid),
        SupervisorAction::Finish(Outcome::NotRunning),
    ]);
}

/// Status reports "not running", and nothing else, when the recorded pid's
/// process has died or the probe cannot run, and when no pid is recorded.
pub proof fn lemma_status_of_dead_pid(pid: u32, l: Liveness)
    requires
        l != Liveness::Alive,
    ensures
        trace(
            Operation::Status,
            seq![SupervisorEvent::PidRead(Some(pid)), SupervisorEvent::Probed(l)],
        ) == seq![
            SupervisorAction::ReadPid,
            SupervisorAction::Probe(pid),
            SupervisorAction::Finish(Outcome::NotRunning),
        ],
        trace(Operation::Status, seq![SupervisorEvent::PidRead(None)]) == seq![
            SupervisorAction::ReadPid,
            SupervisorAction::Finish(Outcome::NotRunning),
        ],
{
    lemma_run_one(SupervisorState::Checking(Operation::Status), SupervisorEvent::PidRead(None));
    lemma_run_two(
        SupervisorState::Checking(Operation::Status),
        SupervisorEvent::PidRead(Some(pid)),
        SupervisorEvent::Probed(l),
    );
    assert(trace(Operation::Status, seq![SupervisorEvent::PidRead(None)]) =~= seq![
        SupervisorAction::ReadPid,
        SupervisorAction::Finish(Outcome::NotRunning),
    ]);
    assert(trace(
        Operation::Status,
        seq![SupervisorEvent::PidRead(Some(pid)), SupervisorEvent::Probed(l)],
    ) =~= seq![
        SupervisorAction::ReadPid,
        SupervisorAction::Probe(pid),
        SupervisorAction::Finish(Outcome::NotRunning),
    ]);
}

/// How many of `acts` are termination requests.
pub open spec fn signals(acts: Seq<SupervisorAction>) -> nat
    decreases acts.len(),
{
    if acts.len() == 0 {
        0
    } else {
        (if acts[0] is Signal {
            1nat
        } else {
            0nat
        }) + signals(acts.drop_first())
    }
}

/// How many of `acts` are spawns.
pub open spec fn spawns(acts: Seq<SupervisorAction>) -> nat
    decreases acts.len(),
{
    if acts.len() == 0 {
        0
    } else {
        (if acts[0] is Spawn {
            1nat
        } else {
            0nat
        }) + spawns(acts.drop_first())
    }
}

/// Termination requests that may still come from state `s`.
pub open spec fn signal_budget(s: SupervisorState) -> nat {
    match s {
        SupervisorState::Checking(Operation::Stop) => 1,
        SupervisorState::Probing(Operation::Stop, _) => 1,
        _ => 0,
    }
}

/// Spawns that may still come from state `s`.
pub open spec fn spawn_budget(s: SupervisorState) -> nat {
    match s {
        SupervisorState::Checking(Operation::Start) => 1,
        SupervisorState::Probing(Operation::Start, _) => 1,
        _ => 0,
    }
}

proof fn lemma_run_within_budget(s: SupervisorState, events: Seq<SupervisorEvent>)
    ensures
        signals(run(s, events)) <= signal_budget(s),
        spawns(run(s, events)) <= spawn_budget(s),
    decreases events.len(),
{
    if events.len() > 0 {
        let (t, a) = supervisor_next(s, events[0]);
        let rest = run(t, events.drop_first());
        lemma_run_within_budget(t, events.drop_first());
        assert((seq![a] + rest).drop_first() =~= rest);
        assert(run(s, events) == seq![a] + rest);
    }
}

/// Stopping never escalates: whatever the answers, a stop sends at most one
/// termination request, and start and status send none.
pub proof fn lemma_stop_signals_at_most_once(events: Seq<SupervisorEvent>)
    ensures
        signals(trace(Operation::Stop, events)) <= 1,
        signals(trace(Operation::Start, events)) == 0,
        signals(trace(Operation::Status, events)) == 0,
{
    lemma_trace_counts(Operation::Stop, events);
    lemma_trace_counts(Operation::Start, events);
    lemma_trace_counts(Operation::Status, events);
}

/// Whatever the answers, a start spawns at most one daemon, and stop and
/// status spawn none.
pub proof fn lemma_start_spawns_at_most_once(events: Seq<SupervisorEvent>)
    ensures
        spawns(trace(Operation::Start, events)) <= 1,
        spawns(trace(Operation::Stop, events)) == 0,
        spawns(trace(Operation::Status, events)) == 0,
{
    lemma_trace_counts(Operation::Stop, events);
    lemma_trace_counts(Operation::Start, events);
    lemma_trace_counts(Operation::Status, events);
}

proof fn lemma_trace_counts(op: Operation, events: Seq<SupervisorEvent>)
    ensures
        signals(trace(op, events)) <= signal_budget(SupervisorState::Checking(op)),
        spawns(trace(op, events)) <= spawn_budget(SupervisorState::Checking(op)),
{
    let rest = run(SupervisorState::Checking(op), events);
    lemma_run_within_budget(SupervisorState::Checking(op), events);
    assert((seq![SupervisorAction::ReadPid] + rest).drop_first() =~= rest);
}

} // verus!

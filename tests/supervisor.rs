use peeksy::supervisor::{
    Liveness, Operation, Outcome, SupervisorAction, SupervisorEvent, SupervisorState,
    SETTLE_MILLIS,
};

/// Runs an operation against fixed answers, collecting every action.
fn drive(op: Operation, answers: Vec<SupervisorEvent>) -> Vec<SupervisorAction> {
    let (mut s, a) = SupervisorState::begin(op);
    let mut actions = vec![a];
    for e in answers {
        let (t, a) = s.step(e);
        s = t;
        actions.push(a);
    }
    actions
}

#[test]
fn start_twice_second_reports_already_running() {
    let first = drive(
        Operation::Start,
        vec![
            SupervisorEvent::PidRead(None),
            SupervisorEvent::Spawned(true),
            SupervisorEvent::Slept,
            SupervisorEvent::PidRead(Some(42)),
            SupervisorEvent::Probed(Liveness::Alive),
            SupervisorEvent::ServiceDone,
        ],
    );
    assert_eq!(
        first,
        vec![
            SupervisorAction::ReadPid,
            SupervisorAction::Spawn,
            SupervisorAction::Sleep(SETTLE_MILLIS),
            SupervisorAction::ReadPid,
            SupervisorAction::Probe(42),
            SupervisorAction::LoadService,
            SupervisorAction::Finish(Outcome::Started(42)),
        ]
    );
    let second = drive(
        Operation::Start,
        vec![SupervisorEvent::PidRead(Some(42)), SupervisorEvent::Probed(Liveness::Alive)],
    );
    assert_eq!(
        second,
        vec![
            SupervisorAction::ReadPid,
            SupervisorAction::Probe(42),
            SupervisorAction::Finish(Outcome::AlreadyRunning(42)),
        ]
    );
    assert!(!second.contains(&SupervisorAction::Spawn));
}

#[test]
fn start_with_stale_pid_spawns() {
    let acts = drive(
        Operation::Start,
        vec![
            SupervisorEvent::PidRead(Some(7)),
            SupervisorEvent::Probed(Liveness::Gone),
            SupervisorEvent::Spawned(true),
            SupervisorEvent::Slept,
            SupervisorEvent::PidRead(Some(8)),
            SupervisorEvent::Probed(Liveness::Alive),
            SupervisorEvent::ServiceDone,
        ],
    );
    assert_eq!(acts[2], SupervisorAction::Spawn);
    assert_eq!(acts.last(), Some(&SupervisorAction::Finish(Outcome::Started(8))));
}

#[test]
fn start_child_exits_at_once() {
    let acts = drive(
        Operation::Start,
        vec![
            SupervisorEvent::PidRead(None),
            SupervisorEvent::Spawned(true),
            SupervisorEvent::Slept,
            SupervisorEvent::PidRead(Some(9)),
            SupervisorEvent::Probed(Liveness::Gone),
        ],
    );
    assert_eq!(acts.last(), Some(&SupervisorAction::Finish(Outcome::StartFailed)));
    assert!(!acts.contains(&SupervisorAction::LoadService));
}

#[test]
fn start_spawn_failure() {
    let acts = drive(
        Operation::Start,
        vec![SupervisorEvent::PidRead(None), SupervisorEvent::Spawned(false)],
    );
    assert_eq!(
        acts,
        vec![
            SupervisorAction::ReadPid,
            SupervisorAction::Spawn,
            SupervisorAction::Finish(Outcome::SpawnFailed),
        ]
    );
}

#[test]
fn stop_when_stopped_is_noop() {
    let no_pid = drive(Operation::Stop, vec![SupervisorEvent::PidRead(None)]);
    assert_eq!(
        no_pid,
        vec![SupervisorAction::ReadPid, SupervisorAction::Finish(Outcome::NotRunning)]
    );
    let dead = drive(
        Operation::Stop,
        vec![SupervisorEvent::PidRead(Some(5)), SupervisorEvent::Probed(Liveness::Gone)],
    );
    assert_eq!(
        dead,
        vec![
            SupervisorAction::ReadPid,
            SupervisorAction::Probe(5),
            SupervisorAction::Finish(Outcome::NotRunning),
        ]
    );
}

#[test]
fn stop_running_daemon() {
    let acts = drive(
        Operation::Stop,
        vec![
            SupervisorEvent::PidRead(Some(5)),
            SupervisorEvent::Probed(Liveness::Alive),
            SupervisorEvent::Signalled(true),
            SupervisorEvent::Slept,
            SupervisorEvent::Probed(Liveness::Gone),
            SupervisorEvent::ServiceDone,
        ],
    );
    assert_eq!(
        acts,
        vec![
            SupervisorAction::ReadPid,
            SupervisorAction::Probe(5),
            SupervisorAction::Signal(5),
            SupervisorAction::Sleep(SETTLE_MILLIS),
            SupervisorAction::Probe(5),
            SupervisorAction::UnloadService,
            SupervisorAction::Finish(Outcome::Stopped(5)),
        ]
    );
}

#[test]
fn stop_unresponsive_daemon_not_escalated() {
    let acts = drive(
        Operation::Stop,
        vec![
            SupervisorEvent::PidRead(Some(5)),
            SupervisorEvent::Probed(Liveness::Alive),
            SupervisorEvent::Signalled(true),
            SupervisorEvent::Slept,
            SupervisorEvent::Probed(Liveness::Alive),
        ],
    );
    assert_eq!(acts.last(), Some(&SupervisorAction::Finish(Outcome::StillRunning(5))));
    assert_eq!(acts.iter().filter(|a| **a == SupervisorAction::Signal(5)).count(), 1);
    assert!(!acts.contains(&SupervisorAction::UnloadService));
}

#[test]
fn stop_signal_failure() {
    let acts = drive(
        Operation::Stop,
        vec![
            SupervisorEvent::PidRead(Some(5)),
            SupervisorEvent::Probed(Liveness::Alive),
            SupervisorEvent::Signalled(false),
        ],
    );
    assert_eq!(acts.last(), Some(&SupervisorAction::Finish(Outcome::SignalFailed(5))));
}

#[test]
fn status_after_external_death() {
    let acts = drive(
        Operation::Status,
        vec![SupervisorEvent::PidRead(Some(77)), SupervisorEvent::Probed(Liveness::Gone)],
    );
    assert_eq!(acts.last(), Some(&SupervisorAction::Finish(Outcome::NotRunning)));
}

#[test]
fn status_probe_unavailable_is_stopped() {
    let acts = drive(
        Operation::Status,
        vec![SupervisorEvent::PidRead(Some(77)), SupervisorEvent::Probed(Liveness::Unknown)],
    );
    assert_eq!(acts.last(), Some(&SupervisorAction::Finish(Outcome::NotRunning)));
    let none = drive(Operation::Status, vec![SupervisorEvent::PidRead(None)]);
    assert_eq!(none.last(), Some(&SupervisorAction::Finish(Outcome::NotRunning)));
}

#[test]
fn status_running() {
    let acts = drive(
        Operation::Status,
        vec![SupervisorEvent::PidRead(Some(77)), SupervisorEvent::Probed(Liveness::Alive)],
    );
    assert_eq!(acts.last(), Some(&SupervisorAction::Finish(Outcome::Running(77))));
}

#[test]
fn supervisor_out_of_order() {
    let acts = drive(Operation::Status, vec![SupervisorEvent::Slept]);
    assert_eq!(acts.last(), Some(&SupervisorAction::Finish(Outcome::OutOfOrder)));
    let (_, a) = SupervisorState::Done.step(SupervisorEvent::ServiceDone);
    assert_eq!(a, SupervisorAction::Finish(Outcome::OutOfOrder));
}

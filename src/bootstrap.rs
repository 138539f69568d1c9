//! The decisions of the spec-session bootstrap, as a machine from a stage and
//! the outcome of the last action to the next stage and action. The caller
//! performs each action and reports its outcome as the next event.

use vstd::prelude::*;

verus! {

/// Where the bootstrap stands.
#[derive(Clone, Copy, PartialEq, Eq, Structural, Debug)]
pub enum Stage {
    Start,
    EnsuringDirs,
    CheckingSnapshot,
    WritingSnapshot,
    OpeningLogger,
    ProbingPort,
    LocatingUi,
    Spawning,
    Finished,
}

/// The outcome of the last action, or the request that starts the bootstrap.
#[derive(Clone, Copy, PartialEq, Eq, Structural, Debug)]
pub enum Event {
    Begin { enabled: bool },
    DirsEnsured { ok: bool },
    SnapshotChecked { exists: bool },
    SnapshotWritten { ok: bool },
    LoggerOpened { ok: bool },
    PortProbed { open: bool },
    UiLocated { found: bool },
    SpawnAttempted,
}

/// Why a bootstrap failed.
#[derive(Clone, Copy, PartialEq, Eq, Structural, Debug)]
pub enum BootstrapError {
    DirsNotCreated,
    SnapshotNotWritten,
    LoggerNotOpened,
    UiDirNotFound,
}

/// What the caller does next.
#[derive(Clone, Copy, PartialEq, Eq, Structural, Debug)]
pub enum Action {
    /// Create the spec home's subdirectories.
    CreateDirs,
    /// Look whether the session's snapshot file exists.
    CheckSnapshot,
    /// Write the session's snapshot file.
    WriteSnapshot,
    /// Open the session's log file in append mode.
    OpenLogger,
    /// Try to connect to the companion UI port.
    ProbePort,
    /// Find the companion UI project directory.
    LocateUi,
    /// Start the companion UI service, detached; its failure is ignored.
    Spawn,
    /// Hand back the session with the companion UI address.
    Ready,
    /// Hand back no session: the bootstrap is disabled.
    Disabled,
    /// Hand back the error.
    Fail(BootstrapError),
    /// Nothing: the event does not belong to this stage.
    Ignore,
}

/// The next stage and action.
pub open spec fn next(stage: Stage, event: Event) -> (Stage, Action) {
    match (stage, event) {
        (Stage::Start, Event::Begin { enabled }) => if enabled {
            (Stage::EnsuringDirs, Action::CreateDirs)
        } else {
            (Stage::Finished, Action::Disabled)
        },
        (Stage::EnsuringDirs, Event::DirsEnsured { ok }) => if ok {
            (Stage::CheckingSnapshot, Action::CheckSnapshot)
        } else {
            (Stage::Finished, Action::Fail(BootstrapError::DirsNotCreated))
        },
        (Stage::CheckingSnapshot, Event::SnapshotChecked { exists }) => if exists {
            (Stage::OpeningLogger, Action::OpenLogger)
        } else {
            (Stage::WritingSnapshot, Action::WriteSnapshot)
        },
        (Stage::WritingSnapshot, Event::SnapshotWritten { ok }) => if ok {
            (Stage::OpeningLogger, Action::OpenLogger)
        } else {
            (Stage::Finished, Action::Fail(BootstrapError::SnapshotNotWritten))
        },
        (Stage::OpeningLogger, Event::LoggerOpened { ok }) => if ok {
            (Stage::ProbingPort, Action::ProbePort)
        } else {
            (Stage::Finished, Action::Fail(BootstrapError::LoggerNotOpened))
        },
        (Stage::ProbingPort, Event::PortProbed { open }) => if open {
            (Stage::Finished, Action::Ready)
        } else {
            (Stage::LocatingUi, Action::LocateUi)
        },
        (Stage::LocatingUi, Event::UiLocated { found }) => if found {
            (Stage::Spawning, Action::Spawn)
        } else {
            (Stage::Finished, Action::Fail(BootstrapError::UiDirNotFound))
        },
        (Stage::Spawning, Event::SpawnAttempted) => (Stage::Finished, Action::Ready),
        _ => (stage, Action::Ignore),
    }
}

/// The actions taken for a sequence of events, from `stage` on.
pub open spec fn run(stage: Stage, events: Seq<Event>) -> Seq<Action>
    decreases events.len(),
{
    if events.len() == 0 {
        seq![]
    } else {
        let (s, a) = next(stage, events[0]);
        seq![a] + run(s, events.drop_first())
    }
}

/// Takes one step of the bootstrap.
pub fn step(stage: Stage, event: Event) -> (r: (Stage, Action))
    ensures
        r == next(stage, event),
{
    match (stage, event) {
        (Stage::Start, Event::Begin { enabled }) => if enabled {
            (Stage::EnsuringDirs, Action::CreateDirs)
        } else {
            (Stage::Finished, Action::Disabled)
        },
        (Stage::EnsuringDirs, Event::DirsEnsured { ok }) => if ok {
            (Stage::CheckingSnapshot, Action::CheckSnapshot)
        } else {
            (Stage::Finished, Action::Fail(BootstrapError::DirsNotCreated))
        },
        (Stage::CheckingSnapshot, Event::SnapshotChecked { exists }) => if exists {
            (Stage::OpeningLogger, Action::OpenLogger)
        } else {
            (Stage::WritingSnapshot, Action::WriteSnapshot)
        },
        (Stage::WritingSnapshot, Event::SnapshotWritten { ok }) => if ok {
            (Stage::OpeningLogger, Action::OpenLogger)
        } else {
            (Stage::Finished, Action::Fail(BootstrapError::SnapshotNotWritten))
        },
        (Stage::OpeningLogger, Event::LoggerOpened { ok }) => if ok {
            (Stage::ProbingPort, Action::ProbePort)
        } else {
            (Stage::Finished, Action::Fail(BootstrapError::LoggerNotOpened))
        },
        (Stage::ProbingPort, Event::PortProbed { open }) => if open {
            (Stage::Finished, Action::Ready)
        } else {
            (Stage::LocatingUi, Action::LocateUi)
        },
        (Stage::LocatingUi, Event::UiLocated { found }) => if found {
            (Stage::Spawning, Action::Spawn)
        } else {
            (Stage::Finished, Action::Fail(BootstrapError::UiDirNotFound))
        },
        (Stage::Spawning, Event::SpawnAttempted) => (Stage::Finished, Action::Ready),
        _ => (stage, Action::Ignore),
    }
}

/// Once finished, the bootstrap takes no further action, whatever happens.
pub proof fn lemma_finished_is_final(events: Seq<Event>)
    ensures
        forall|i: int| 0 <= i < run(Stage::Finished, events).len() ==> run(Stage::Finished, events)[i]
            == Action::Ignore,
        run(Stage::Finished, events).len() == events.len(),
    decreases events.len(),
{
    if events.len() > 0 {
        lemma_finished_is_final(events.drop_first());
    }
}

/// A disabled bootstrap hands back no session and takes no other action: no
/// directory is created and no port is probed.
pub proof fn lemma_disabled_does_nothing(events: Seq<Event>)
    ensures
        run(Stage::Start, seq![Event::Begin { enabled: false }] + events) == seq![Action::Disabled]
            + run(Stage::Finished, events),
        forall|i: int|
            0 <= i < run(Stage::Finished, events).len() ==> run(Stage::Finished, events)[i]
                == Action::Ignore,
{
    let evs = seq![Event::Begin { enabled: false }] + events;
    assert(evs.drop_first() =~= events);
    lemma_finished_is_final(events);
}

/// Where the companion port already accepts connections, the session is
/// handed back at once with the UI address, and no process is started.
pub proof fn lemma_open_port_never_spawns(events: Seq<Event>)
    ensures
        run(Stage::ProbingPort, seq![Event::PortProbed { open: true }] + events) == seq![
            Action::Ready,
        ] + run(Stage::Finished, events),
        forall|i: int|
            0 <= i < run(Stage::ProbingPort, seq![Event::PortProbed { open: true }] + events).len()
                ==> run(Stage::ProbingPort, seq![Event::PortProbed { open: true }] + events)[i]
                != Action::Spawn,
{
    let evs = seq![Event::PortProbed { open: true }] + events;
    assert(evs.drop_first() =~= events);
    lemma_finished_is_final(events);
}

/// Where the companion port is closed and the UI directory is found, the
/// service is started exactly once and the session is handed back.
pub proof fn lemma_closed_port_spawns_once(events: Seq<Event>)
    ensures
        run(
            Stage::ProbingPort,
            seq![
                Event::PortProbed { open: false },
                Event::UiLocated { found: true },
                Event::SpawnAttempted,
            ] + events,
        ) == seq![Action::LocateUi, Action::Spawn, Action::Ready] + run(Stage::Finished, events),
        forall|i: int|
            0 <= i < run(Stage::Finished, events).len() ==> run(Stage::Finished, events)[i]
                == Action::Ignore,
{
    let e3 = seq![Event::SpawnAttempted] + events;
    let e2 = seq![Event::UiLocated { found: true }] + e3;
    let e1 = seq![Event::PortProbed { open: false }] + e2;
    assert(e3.drop_first() =~= events);
    assert(e2.drop_first() =~= e3);
    assert(e1.drop_first() =~= e2);
    assert(seq![
        Event::PortProbed { open: false },
        Event::UiLocated { found: true },
        Event::SpawnAttempted,
    ] + events =~= e1);
    assert(run(Stage::Spawning, e3) == seq![Action::Ready] + run(Stage::Finished, events));
    assert(run(Stage::LocatingUi, e2) == seq![Action::Spawn] + run(Stage::Spawning, e3));
    assert(run(Stage::ProbingPort, e1) == seq![Action::LocateUi] + run(Stage::LocatingUi, e2));
    assert(seq![Action::LocateUi] + (seq![Action::Spawn] + (seq![Action::Ready] + run(
        Stage::Finished,
        events,
    ))) =~= seq![Action::LocateUi, Action::Spawn, Action::Ready] + run(Stage::Finished, events));
    lemma_finished_is_final(events);
}

/// The stages from which the snapshot is never written again.
pub open spec fn past_snapshot(stage: Stage) -> bool {
    stage == Stage::OpeningLogger || stage == Stage::ProbingPort || stage == Stage::LocatingUi
        || stage == Stage::Spawning || stage == Stage::Finished
}

/// Once past the snapshot step, the snapshot file is never written.
pub proof fn lemma_past_snapshot_never_writes(stage: Stage, events: Seq<Event>)
    requires
        past_snapshot(stage),
    ensures
        forall|i: int| 0 <= i < run(stage, events).len() ==> run(stage, events)[i]
            != Action::WriteSnapshot,
    decreases events.len(),
{
    if events.len() > 0 {
        lemma_past_snapshot_never_writes(next(stage, events[0]).0, events.drop_first());
    }
}

/// Where the session's snapshot file already exists, the bootstrap goes on
/// to the logger and never writes the snapshot, so the file is left as it is.
pub proof fn lemma_existing_snapshot_kept(events: Seq<Event>)
    ensures
        run(Stage::CheckingSnapshot, seq![Event::SnapshotChecked { exists: true }] + events)
            == seq![Action::OpenLogger] + run(Stage::OpeningLogger, events),
        forall|i: int|
            0 <= i < run(
                Stage::CheckingSnapshot,
                seq![Event::SnapshotChecked { exists: true }] + events,
            ).len() ==> run(
                Stage::CheckingSnapshot,
                seq![Event::SnapshotChecked { exists: true }] + events,
            )[i] != Action::WriteSnapshot,
{
    let evs = seq![Event::SnapshotChecked { exists: true }] + events;
    assert(evs.drop_first() =~= events);
    lemma_past_snapshot_never_writes(Stage::OpeningLogger, events);
    let r = run(Stage::CheckingSnapshot, evs);
    assert forall|i: int| 0 <= i < r.len() implies r[i] != Action::WriteSnapshot by {
        if i > 0 {
            assert(r[i] == run(Stage::OpeningLogger, events)[i - 1]);
        }
    }
}

} // verus!

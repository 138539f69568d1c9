use memory_session::bootstrap::{step, Action, BootstrapError, Event, Stage};

fn drive(events: &[Event]) -> Vec<Action> {
    let mut stage = Stage::Start;
    let mut actions = Vec::new();
    for e in events {
        let (s, a) = step(stage, *e);
        stage = s;
        actions.push(a);
    }
    actions
}

#[test]
fn disabled_does_nothing() {
    let a = drive(&[
        Event::Begin { enabled: false },
        Event::DirsEnsured { ok: true },
        Event::PortProbed { open: false },
    ]);
    assert_eq!(a, vec![Action::Disabled, Action::Ignore, Action::Ignore]);
}

#[test]
fn fresh_session_with_closed_port_spawns_once() {
    let a = drive(&[
        Event::Begin { enabled: true },
        Event::DirsEnsured { ok: true },
        Event::SnapshotChecked { exists: false },
        Event::SnapshotWritten { ok: true },
        Event::LoggerOpened { ok: true },
        Event::PortProbed { open: false },
        Event::UiLocated { found: true },
        Event::SpawnAttempted,
        Event::SpawnAttempted,
    ]);
    assert_eq!(
        a,
        vec![
            Action::CreateDirs,
            Action::CheckSnapshot,
            Action::WriteSnapshot,
            Action::OpenLogger,
            Action::ProbePort,
            Action::LocateUi,
            Action::Spawn,
            Action::Ready,
            Action::Ignore,
        ]
    );
    assert_eq!(a.iter().filter(|x| **x == Action::Spawn).count(), 1);
}

#[test]
fn open_port_is_reused() {
    let a = drive(&[
        Event::Begin { enabled: true },
        Event::DirsEnsured { ok: true },
        Event::SnapshotChecked { exists: true },
        Event::LoggerOpened { ok: true },
        Event::PortProbed { open: true },
        Event::UiLocated { found: true },
    ]);
    assert_eq!(
        a,
        vec![
            Action::CreateDirs,
            Action::CheckSnapshot,
            Action::OpenLogger,
            Action::ProbePort,
            Action::Ready,
            Action::Ignore,
        ]
    );
    assert!(!a.contains(&Action::Spawn));
    assert!(!a.contains(&Action::WriteSnapshot));
}

#[test]
fn each_failure_is_reported() {
    assert_eq!(
        drive(&[Event::Begin { enabled: true }, Event::DirsEnsured { ok: false }])[1],
        Action::Fail(BootstrapError::DirsNotCreated)
    );
    assert_eq!(
        drive(&[
            Event::Begin { enabled: true },
            Event::DirsEnsured { ok: true },
            Event::SnapshotChecked { exists: false },
            Event::SnapshotWritten { ok: false },
        ])[3],
        Action::Fail(BootstrapError::SnapshotNotWritten)
    );
    assert_eq!(
        drive(&[
            Event::Begin { enabled: true },
            Event::DirsEnsured { ok: true },
            Event::SnapshotChecked { exists: true },
            Event::LoggerOpened { ok: false },
        ])[3],
        Action::Fail(BootstrapError::LoggerNotOpened)
    );
    assert_eq!(
        drive(&[
            Event::Begin { enabled: true },
            Event::DirsEnsured { ok: true },
            Event::SnapshotChecked { exists: true },
            Event::LoggerOpened { ok: true },
            Event::PortProbed { open: false },
            Event::UiLocated { found: false },
        ])[5],
        Action::Fail(BootstrapError::UiDirNotFound)
    );
}

#[test]
fn out_of_order_event_is_ignored() {
    assert_eq!(
        step(Stage::ProbingPort, Event::Begin { enabled: true }),
        (Stage::ProbingPort, Action::Ignore)
    );
}

use ssg_parent::error::DevError;
use ssg_parent::event::{FsEventKind, InputEvent, OutputEvent};
use ssg_parent::state::{BuilderState, State};

fn io_error() -> std::io::Error {
    std::io::Error::new(std::io::ErrorKind::Other, "failed")
}

fn state(builder: BuilderState<u32>) -> State<u32> {
    State { builder }
}

#[test]
fn default_state_is_starting() {
    let s: State<u32> = State::default();
    assert!(matches!(s.builder, BuilderState::Starting));
    let b: BuilderState<u32> = BuilderState::default();
    assert!(matches!(b, BuilderState::Starting));
}

#[test]
fn killing_takes_running_builder() {
    let mut b = BuilderState::Started(7u32);
    assert_eq!(b.killing(), Some(7));
    assert!(matches!(b, BuilderState::Idle));
    let mut b: BuilderState<u32> = BuilderState::Obsolete;
    assert_eq!(b.killing(), None);
    assert!(matches!(b, BuilderState::Idle));
}

#[test]
fn killed_builder_runs_again() {
    let mut s = state(BuilderState::Starting);
    let out = s.input_event(InputEvent::BuilderKilled(Ok(())));
    assert!(matches!(out, Some(OutputEvent::RunBuilder)));
    assert!(matches!(s.builder, BuilderState::Idle));
}

#[test]
fn failed_kill_is_reported() {
    let mut s = state(BuilderState::Idle);
    let out = s.input_event(InputEvent::BuilderKilled(Err(io_error())));
    assert!(matches!(out, Some(OutputEvent::Error(DevError::Io(_)))));
    assert!(matches!(s.builder, BuilderState::Idle));
}

#[test]
fn change_while_starting_makes_obsolete() {
    for kind in [FsEventKind::Create, FsEventKind::Modify, FsEventKind::Remove] {
        let mut s = state(BuilderState::Starting);
        let out = s.input_event(InputEvent::Notify(Ok(kind)));
        assert!(out.is_none());
        assert!(matches!(s.builder, BuilderState::Obsolete));
    }
}

#[test]
fn change_while_running_kills() {
    let mut s = state(BuilderState::Started(3));
    let out = s.input_event(InputEvent::Notify(Ok(FsEventKind::Modify)));
    assert!(matches!(out, Some(OutputEvent::KillChildProcess(3))));
    assert!(matches!(s.builder, BuilderState::Idle));
}

#[test]
fn change_while_idle_or_obsolete_is_absorbed() {
    let mut s = state(BuilderState::Idle);
    assert!(s.input_event(InputEvent::Notify(Ok(FsEventKind::Create))).is_none());
    assert!(matches!(s.builder, BuilderState::Idle));
    let mut s = state(BuilderState::Obsolete);
    assert!(s.input_event(InputEvent::Notify(Ok(FsEventKind::Remove))).is_none());
    assert!(matches!(s.builder, BuilderState::Obsolete));
}

#[test]
fn irrelevant_events_are_ignored() {
    for kind in [FsEventKind::Any, FsEventKind::Access, FsEventKind::Other] {
        let mut s = state(BuilderState::Started(5));
        assert!(s.input_event(InputEvent::Notify(Ok(kind))).is_none());
        assert!(matches!(s.builder, BuilderState::Started(5)));
        assert!(!kind.changes_sources());
    }
    assert!(FsEventKind::Create.changes_sources());
}

#[test]
fn watch_error_is_reported() {
    let mut s = state(BuilderState::Started(5));
    let out = s.input_event(InputEvent::Notify(Err(notify::Error::generic("watch failed"))));
    assert!(matches!(out, Some(OutputEvent::Error(DevError::FsWatch(_)))));
    assert!(matches!(s.builder, BuilderState::Started(5)));
}

#[test]
fn started_builder_is_kept() {
    let mut s = state(BuilderState::Starting);
    assert!(s.input_event(InputEvent::BuilderStarted(Ok(9))).is_none());
    assert!(matches!(s.builder, BuilderState::Started(9)));
    let mut s = state(BuilderState::Idle);
    assert!(s.input_event(InputEvent::BuilderStarted(Ok(8))).is_none());
    assert!(matches!(s.builder, BuilderState::Started(8)));
}

#[test]
fn obsolete_builder_is_killed_on_start() {
    let mut s = state(BuilderState::Obsolete);
    let out = s.input_event(InputEvent::BuilderStarted(Ok(4)));
    assert!(matches!(out, Some(OutputEvent::KillChildProcess(4))));
    assert!(matches!(s.builder, BuilderState::Idle));
}

#[test]
fn second_builder_replaces_first() {
    let mut s = state(BuilderState::Started(1));
    let out = s.input_event(InputEvent::BuilderStarted(Ok(2)));
    assert!(matches!(out, Some(OutputEvent::KillChildProcess(1))));
    assert!(matches!(s.builder, BuilderState::Started(2)));
}

#[test]
fn failed_spawn_browser_and_server_errors_are_reported() {
    let mut s = state(BuilderState::Starting);
    let out = s.input_event(InputEvent::BuilderStarted(Err(io_error())));
    assert!(matches!(out, Some(OutputEvent::Error(DevError::Io(_)))));
    assert!(matches!(s.builder, BuilderState::Starting));
    let out = s.input_event(InputEvent::BrowserOpened(Err(io_error())));
    assert!(matches!(out, Some(OutputEvent::Error(DevError::Io(_)))));
    let out = s.input_event(InputEvent::ServerError(io_error()));
    assert!(matches!(out, Some(OutputEvent::Error(DevError::Io(_)))));
    assert!(s.input_event(InputEvent::BrowserOpened(Ok(()))).is_none());
    assert!(matches!(s.builder, BuilderState::Starting));
}

#[test]
fn change_restarts_running_builder_scenario() {
    let mut s = state(BuilderState::Started(11));
    let first = s.input_event(InputEvent::Notify(Ok(FsEventKind::Modify)));
    let second = s.input_event(InputEvent::BuilderKilled(Ok(())));
    assert!(matches!(first, Some(OutputEvent::KillChildProcess(11))));
    assert!(matches!(second, Some(OutputEvent::RunBuilder)));
    assert!(matches!(s.builder, BuilderState::Idle));
}

#[test]
fn stale_builder_is_replaced_scenario() {
    let mut s: State<u32> = State::default();
    let first = s.input_event(InputEvent::Notify(Ok(FsEventKind::Create)));
    let second = s.input_event(InputEvent::BuilderStarted(Ok(21)));
    let third = s.input_event(InputEvent::BuilderKilled(Ok(())));
    assert!(first.is_none());
    assert!(matches!(second, Some(OutputEvent::KillChildProcess(21))));
    assert!(matches!(third, Some(OutputEvent::RunBuilder)));
    assert!(matches!(s.builder, BuilderState::Idle));
    let fourth = s.input_event(InputEvent::BuilderStarted(Ok(22)));
    assert!(fourth.is_none());
    assert!(matches!(s.builder, BuilderState::Started(22)));
}

/// Counts the builder processes in play in a simulated session: held, being spawned, being killed.
#[test]
fn one_builder_at_a_time_scenario() {
    let mut s: State<u32> = State::default();
    let mut spawns: u32 = 1;
    let mut kills: Vec<u32> = Vec::new();
    let mut next_child: u32 = 100;
    let script = ["change", "start", "kill", "start", "change", "change", "kill", "change", "start"];
    for step in script {
        let input = match step {
            "change" => InputEvent::Notify(Ok(FsEventKind::Modify)),
            "start" => {
                assert!(spawns > 0);
                spawns -= 1;
                next_child += 1;
                InputEvent::BuilderStarted(Ok(next_child))
            }
            _ => {
                assert!(!kills.is_empty());
                kills.remove(0);
                InputEvent::BuilderKilled(Ok(()))
            }
        };
        match s.input_event(input) {
            Some(OutputEvent::RunBuilder) => spawns += 1,
            Some(OutputEvent::KillChildProcess(c)) => kills.push(c),
            _ => {}
        }
        let held = if matches!(s.builder, BuilderState::Started(_)) { 1 } else { 0 };
        assert_eq!(held + spawns as usize + kills.len(), 1);
    }
}

#[test]
fn dev_error_messages() {
    assert_eq!(DevError::NoFreePort.message(), "no free port");
    assert_eq!(DevError::Io(io_error()).message(), "failed");
    let watch = notify::Error::generic("watch failed");
    let expected = watch.to_string();
    assert_eq!(DevError::FsWatch(watch).message(), expected);
}

#[test]
fn step_functions_directly() {
    let mut s = state(BuilderState::Started(6));
    assert!(matches!(s.builder_killed(Err(io_error())), Some(OutputEvent::Error(DevError::Io(_)))));
    assert!(matches!(s.builder, BuilderState::Started(6)));
    assert!(s.fs_change(Ok(FsEventKind::Access)).is_none());
    assert!(matches!(s.builder, BuilderState::Started(6)));
    assert!(matches!(
        s.fs_change(Err(notify::Error::generic("x"))),
        Some(OutputEvent::Error(DevError::FsWatch(_)))
    ));
    assert!(matches!(s.builder_started(Err(io_error())), Some(OutputEvent::Error(DevError::Io(_)))));
    assert!(matches!(s.builder, BuilderState::Started(6)));
    assert!(matches!(s.builder_killed(Ok(())), Some(OutputEvent::RunBuilder)));
    assert!(matches!(s.builder, BuilderState::Idle));
}

use mitch_driver::command::Command;
use mitch_driver::errors::SessionError;
use mitch_driver::recording::Recording;
use mitch_driver::registry::Registry;
use mitch_driver::scanner::Scanner;
use mitch_driver::session::{Event, Mitch, Phase, SerializableMitch, Step};
use mitch_driver::state::MitchState;

fn frame(status: u8) -> Event {
    Event::Response(vec![0, 0, 0, 0, status, 0])
}

fn connected(name: &str) -> Mitch {
    let mut m = Mitch::new(name);
    assert_eq!(m.connect(), Step::Connect);
    assert_eq!(m.resume(Event::Done), Step::DiscoverServices);
    assert_eq!(m.resume(Event::Done), Step::Write(Command::GetState));
    assert_eq!(m.resume(Event::Done), Step::ReadResponse);
    assert_eq!(m.resume(frame(0x02)), Step::Finished);
    m
}

#[test]
fn new_session_is_disconnected() {
    let m = Mitch::new("mitch01");
    assert_eq!(m.name, "mitch01");
    assert!(!m.is_connected());
    assert_eq!(m.state(), None);
    assert!(!m.is_recording());
    assert_eq!(m.phase(), Phase::Idle);
    assert!(!m.needs_disconnect_on_drop());
}

#[test]
fn connect_reads_the_state() {
    let m = connected("mitch01");
    assert!(m.is_connected());
    assert_eq!(m.state(), Some(MitchState::SysIdle));
    assert!(m.needs_disconnect_on_drop());
    let s = SerializableMitch::from(&m);
    assert_eq!(s.name, "mitch01");
    assert!(s.connected);
    assert_eq!(s.state, Some(MitchState::SysIdle));
}

#[test]
fn connect_stays_connected_when_the_state_read_fails() {
    let mut m = Mitch::new("mitch01");
    m.connect();
    m.resume(Event::Done);
    m.resume(Event::Done);
    m.resume(Event::Done);
    assert_eq!(m.resume(Event::Failed), Step::Finished);
    assert!(m.is_connected());
    assert_eq!(m.state(), None);

    let mut m = Mitch::new("mitch01");
    m.connect();
    m.resume(Event::Done);
    m.resume(Event::Done);
    m.resume(Event::Done);
    assert_eq!(m.resume(frame(0x42)), Step::Finished);
    assert!(m.is_connected());
    assert_eq!(m.state(), None);
}

#[test]
fn connect_transport_failures() {
    let mut m = Mitch::new("mitch01");
    m.connect();
    assert_eq!(m.resume(Event::Failed), Step::Failed(SessionError::Transport));
    assert!(!m.is_connected());
    m.connect();
    m.resume(Event::Done);
    assert_eq!(m.resume(Event::Failed), Step::Failed(SessionError::Transport));
    assert!(!m.is_connected());
    assert_eq!(m.phase(), Phase::Idle);
}

#[test]
fn state_write_failure_demotes() {
    let mut m = connected("mitch01");
    assert_eq!(m.update_state(), Step::Write(Command::GetState));
    assert_eq!(m.resume(Event::Failed), Step::Failed(SessionError::Transport));
    assert!(!m.is_connected());
    assert_eq!(m.state(), None);

    let mut m = Mitch::new("mitch02");
    m.connect();
    m.resume(Event::Done);
    m.resume(Event::Done);
    assert_eq!(m.resume(Event::Failed), Step::Finished);
    assert!(!m.is_connected());
    assert_eq!(m.state(), None);
}

#[test]
fn update_state_errors() {
    let mut m = connected("mitch01");
    m.update_state();
    m.resume(Event::Done);
    assert_eq!(m.resume(frame(0x00)), Step::Failed(SessionError::UnknownState));
    assert_eq!(m.state(), Some(MitchState::SysIdle));
    assert!(m.is_connected());
    m.update_state();
    m.resume(Event::Done);
    assert_eq!(m.resume(Event::Response(vec![1, 2, 3])), Step::Failed(SessionError::UnknownState));
    m.update_state();
    m.resume(Event::Done);
    assert_eq!(m.resume(Event::Failed), Step::Failed(SessionError::Transport));
    m.update_state();
    m.resume(Event::Done);
    assert_eq!(m.resume(frame(0xF2)), Step::Finished);
    assert_eq!(m.state(), Some(MitchState::BootDownload));
}

#[test]
fn disconnect_keeps_the_state() {
    let mut m = connected("mitch01");
    assert_eq!(m.disconnect(), Step::Disconnect);
    assert_eq!(m.resume(Event::Failed), Step::Failed(SessionError::Transport));
    assert!(m.is_connected());
    m.disconnect();
    assert_eq!(m.resume(Event::Done), Step::Finished);
    assert!(!m.is_connected());
    assert_eq!(m.state(), Some(MitchState::SysIdle));
}

#[test]
fn start_recording_failures() {
    let mut m = connected("mitch01");
    assert_eq!(m.start_recording(Recording::Accelerometry), Step::Subscribe);
    assert_eq!(m.resume(Event::Failed), Step::Failed(SessionError::Transport));
    m.start_recording(Recording::Accelerometry);
    assert_eq!(m.resume(Event::Done), Step::Write(Command::StartAccelerometryStream));
    assert_eq!(m.resume(Event::Done), Step::ReadResponse);
    assert_eq!(m.resume(Event::Failed), Step::Failed(SessionError::Transport));
    m.start_recording(Recording::Accelerometry);
    m.resume(Event::Done);
    m.resume(Event::Done);
    assert_eq!(m.resume(frame(0)), Step::Spawn(Recording::Accelerometry));
    assert_eq!(m.resume(Event::Failed), Step::Failed(SessionError::StreamSetup));
    assert!(!m.is_recording());
}

#[test]
fn stop_without_task_cancels_nothing() {
    let mut m = connected("mitch01");
    assert_eq!(m.stop_recording(), Step::Write(Command::StopStream));
    assert_eq!(m.resume(Event::Done), Step::ReadResponse);
    assert_eq!(m.resume(frame(0)), Step::Write(Command::GetState));
    assert_eq!(m.resume(Event::Done), Step::ReadResponse);
    assert_eq!(m.resume(frame(0x02)), Step::Finished);
    assert!(!m.is_recording());
}

#[test]
fn idle_session_ignores_events() {
    let mut m = Mitch::new("mitch01");
    assert_eq!(m.resume(Event::Done), Step::Finished);
    assert_eq!(m.phase(), Phase::Idle);
    assert!(!m.is_connected());
}

#[test]
fn discover_connect_record_stop() {
    let mut scanner = Scanner::new();
    let mut registry: Registry<Mitch> = Registry::new();
    let mut id = usize::MAX;
    if let Some(name) = scanner.observe(Some("mitch01")) {
        id = registry.push(Mitch::new(&name));
    }
    assert_eq!(scanner.observe(Some("mitch01")), None);
    assert_eq!(registry.len(), 1);
    assert_eq!(id, 0);
    assert_eq!(registry.get(0).unwrap().name, "mitch01");

    let m = registry.get_mut(id).unwrap();
    m.connect();
    m.resume(Event::Done);
    m.resume(Event::Done);
    m.resume(Event::Done);
    m.resume(frame(0x02));
    assert!(m.is_connected());

    assert_eq!(m.start_recording(Recording::Pressure), Step::Subscribe);
    assert_eq!(m.resume(Event::Done), Step::Write(Command::StartPressureStream));
    assert_eq!(m.resume(Event::Done), Step::ReadResponse);
    assert_eq!(m.resume(frame(0)), Step::Spawn(Recording::Pressure));
    assert_eq!(Recording::Pressure.info(&m.name).channel_count, 16);
    assert_eq!(m.resume(Event::Done), Step::Write(Command::GetState));
    assert!(m.is_recording());
    assert_eq!(m.resume(Event::Done), Step::ReadResponse);
    assert_eq!(m.resume(frame(0xF8)), Step::Finished);
    assert_eq!(m.state(), Some(MitchState::SysTx));

    assert_eq!(m.stop_recording(), Step::Write(Command::StopStream));
    assert_eq!(m.resume(Event::Done), Step::ReadResponse);
    assert_eq!(m.resume(frame(0)), Step::Cancel);
    assert_eq!(m.resume(Event::Done), Step::Write(Command::GetState));
    assert!(!m.is_recording());
    assert_eq!(m.resume(Event::Done), Step::ReadResponse);
    assert_eq!(m.resume(frame(0x02)), Step::Finished);
    assert_eq!(m.state(), Some(MitchState::SysIdle));
}

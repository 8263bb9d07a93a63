use vstd::prelude::*;

use crate::command::{command_bytes, start_command, Command};
use crate::errors::SessionError;
use crate::recording::Recording;
use crate::state::{state_of, MitchState};

verus! {

/// The operation in progress on a session, and how far it has come.
#[derive(Clone, Copy, Debug, PartialEq, Eq, Structural)]
pub enum Phase {
    /// No operation in progress.
    Idle,
    /// Waiting for the transport connect.
    Connecting,
    /// Waiting for service discovery.
    Discovering,
    /// Waiting for the transport disconnect.
    Disconnecting,
    /// Waiting for the acknowledged GetState write. `absorb` is set when a
    /// failed state query must not fail the operation (during connect).
    QueryWrite { absorb: bool },
    /// Waiting for the GetState response frame.
    QueryRead { absorb: bool },
    /// Waiting for the data characteristic subscription.
    StartSubscribe { kind: Recording },
    /// Waiting for the acknowledged start command write.
    StartWrite { kind: Recording },
    /// Waiting for the start command's response frame.
    StartRead { kind: Recording },
    /// Waiting for the streaming task to be set up and spawned.
    StartSpawn { kind: Recording },
    /// Waiting for the acknowledged stop command write.
    StopWrite,
    /// Waiting for the stop command's response frame.
    StopRead,
    /// Waiting for the streaming task to be cancelled.
    StopCancel,
}

/// What the transport, or the task runner, reported for the last step.
#[derive(Debug)]
pub enum Event {
    /// The step succeeded and carried no data.
    Done,
    /// A read succeeded with this frame.
    Response(Vec<u8>),
    /// The step failed.
    Failed,
}

/// The outside work to perform next, or the end of the operation.
#[derive(Clone, Copy, Debug, PartialEq, Eq, Structural)]
pub enum Step {
    /// Connect the transport.
    Connect,
    /// Discover the peripheral's services.
    DiscoverServices,
    /// Disconnect the transport.
    Disconnect,
    /// Write these command bytes to the command characteristic, acknowledged.
    Write(Command),
    /// Read a response frame from the command characteristic.
    ReadResponse,
    /// Subscribe to the data characteristic's notifications.
    Subscribe,
    /// Declare the telemetry stream and spawn the streaming task.
    Spawn(Recording),
    /// Cancel the running streaming task.
    Cancel,
    /// The operation is over and succeeded.
    Finished,
    /// The operation is over and failed with this error.
    Failed(SessionError),
}

/// Offset of the status byte in a GetState response frame.
pub const STATUS_OFFSET: usize = 4;

/// The state that a GetState response frame reports, if it can be decoded.
pub open spec fn status_of(frame: Seq<u8>) -> Option<MitchState> {
    if frame.len() > STATUS_OFFSET {
        state_of(frame[STATUS_OFFSET as int])
    } else {
        None
    }
}

/// One physical device: its name, connection flag, last known state, whether
/// a streaming task is held, and the operation in progress.
#[derive(Debug)]
pub struct Mitch {
    pub name: String,
    connected: bool,
    state: Option<MitchState>,
    recording: bool,
    phase: Phase,
}

/// Abstract value of a session.
pub struct MitchView {
    pub name: Seq<char>,
    pub connected: bool,
    pub state: Option<MitchState>,
    pub recording: bool,
    pub phase: Phase,
}

impl View for Mitch {
    type V = MitchView;

    closed spec fn view(&self) -> MitchView {
        MitchView {
            name: self.name@,
            connected: self.connected,
            state: self.state,
            recording: self.recording,
            phase: self.phase,
        }
    }
}

/// Whether an event is a successful read, and with which frame.
pub open spec fn response_of(ev: Event) -> Option<Seq<u8>> {
    match ev {
        Event::Response(b) => Some(b@),
        _ => None,
    }
}

/// The session, idle again, after an operation ends.
pub open spec fn idle(m: MitchView) -> MitchView {
    MitchView { phase: Phase::Idle, ..m }
}

/// Ends an operation with `e`.
pub open spec fn fail(m: MitchView, e: SessionError) -> (MitchView, Step) {
    (idle(m), Step::Failed(e))
}

/// The GetState round trip that closes connect, start and stop.
pub open spec fn query(m: MitchView, absorb: bool) -> (MitchView, Step) {
    (MitchView { phase: Phase::QueryWrite { absorb }, ..m }, Step::Write(Command::GetState))
}

/// The outcome of a failed state query: nothing, while connecting.
pub open spec fn query_outcome(absorb: bool, e: SessionError) -> Step {
    if absorb {
        Step::Finished
    } else {
        Step::Failed(e)
    }
}

/// The session state machine: how a session moves on an event, and what is
/// done next.
pub open spec fn advance(m: MitchView, ev: Event) -> (MitchView, Step) {
    let ok = ev is Done;
    match m.phase {
        Phase::Idle => (m, Step::Finished),
        Phase::Connecting => if ok {
            (MitchView { phase: Phase::Discovering, ..m }, Step::DiscoverServices)
        } else {
            fail(m, SessionError::Transport)
        },
        Phase::Discovering => if ok {
            query(MitchView { connected: true, ..m }, true)
        } else {
            fail(m, SessionError::Transport)
        },
        Phase::Disconnecting => if ok {
            (idle(MitchView { connected: false, ..m }), Step::Finished)
        } else {
            fail(m, SessionError::Transport)
        },
        Phase::QueryWrite { absorb } => if ok {
            (MitchView { phase: Phase::QueryRead { absorb }, ..m }, Step::ReadResponse)
        } else {
            (
                idle(MitchView { connected: false, state: None, ..m }),
                query_outcome(absorb, SessionError::Transport),
            )
        },
        Phase::QueryRead { absorb } => match response_of(ev) {
            Some(frame) => match status_of(frame) {
                Some(s) => (idle(MitchView { state: Some(s), ..m }), Step::Finished),
                None => (idle(m), query_outcome(absorb, SessionError::UnknownState)),
            },
            None => (idle(m), query_outcome(absorb, SessionError::Transport)),
        },
        Phase::StartSubscribe { kind } => if ok {
            (MitchView { phase: Phase::StartWrite { kind }, ..m }, Step::Write(start_command(kind)))
        } else {
            fail(m, SessionError::Transport)
        },
        Phase::StartWrite { kind } => if ok {
            (MitchView { phase: Phase::StartRead { kind }, ..m }, Step::ReadResponse)
        } else {
            fail(m, SessionError::Transport)
        },
        Phase::StartRead { kind } => if response_of(ev) is Some {
            (MitchView { phase: Phase::StartSpawn { kind }, ..m }, Step::Spawn(kind))
        } else {
            fail(m, SessionError::Transport)
        },
        Phase::StartSpawn { kind } => if ok {
            query(MitchView { recording: true, ..m }, false)
        } else {
            fail(m, SessionError::StreamSetup)
        },
        Phase::StopWrite => if ok {
            (MitchView { phase: Phase::StopRead, ..m }, Step::ReadResponse)
        } else {
            fail(m, SessionError::Transport)
        },
        Phase::StopRead => if response_of(ev) is Some {
            if m.recording {
                (MitchView { phase: Phase::StopCancel, ..m }, Step::Cancel)
            } else {
                query(m, false)
            }
        } else {
            fail(m, SessionError::Transport)
        },
        Phase::StopCancel => query(MitchView { recording: false, ..m }, false),
    }
}

impl Mitch {
    /// A new session: disconnected, state unknown, no streaming task.
    pub fn new(name: &str) -> (r: Mitch)
        ensures
            r@.name == name@,
            !r@.connected,
            r@.state is None,
            !r@.recording,
            r@.phase == Phase::Idle,
    {
        Mitch {
            name: name.to_owned(),
            connected: false,
            state: None,
            recording: false,
            phase: Phase::Idle,
        }
    }

    pub fn is_connected(&self) -> (r: bool)
        ensures
            r == self@.connected,
    {
        self.connected
    }

    pub fn state(&self) -> (r: Option<MitchState>)
        ensures
            r == self@.state,
    {
        self.state
    }

    /// Whether a streaming task is held.
    pub fn is_recording(&self) -> (r: bool)
        ensures
            r == self@.recording,
    {
        self.recording
    }

    pub fn phase(&self) -> (r: Phase)
        ensures
            r == self@.phase,
    {
        self.phase
    }

    /// Whether dropping the session must disconnect it first.
    pub fn needs_disconnect_on_drop(&self) -> (r: bool)
        ensures
            r == self@.connected,
    {
        self.connected
    }

    /// Begins connect: transport connect, service discovery, then a state
    /// query whose failure does not fail the connect.
    pub fn connect(&mut self) -> (r: Step)
        ensures
            final(self)@ == (MitchView { phase: Phase::Connecting, ..old(self)@ }),
            r == Step::Connect,
    {
        self.phase = Phase::Connecting;
        Step::Connect
    }

    /// Begins disconnect.
    pub fn disconnect(&mut self) -> (r: Step)
        ensures
            final(self)@ == (MitchView { phase: Phase::Disconnecting, ..old(self)@ }),
            r == Step::Disconnect,
    {
        self.phase = Phase::Disconnecting;
        Step::Disconnect
    }

    /// Begins a state query: the GetState write, then the response read.
    pub fn update_state(&mut self) -> (r: Step)
        ensures
            (final(self)@, r) == query(old(self)@, false),
    {
        self.phase = Phase::QueryWrite { absorb: false };
        Step::Write(Command::GetState)
    }

    /// Begins a recording: subscribe, start command, its response, the
    /// streaming task, then a state query. A task already held is not
    /// cancelled.
    pub fn start_recording(&mut self, kind: Recording) -> (r: Step)
        ensures
            final(self)@ == (MitchView { phase: Phase::StartSubscribe { kind }, ..old(self)@ }),
            r == Step::Subscribe,
    {
        self.phase = Phase::StartSubscribe { kind };
        Step::Subscribe
    }

    /// Ends a recording: stop command, its response, cancellation of the task
    /// if one is held, then a state query.
    pub fn stop_recording(&mut self) -> (r: Step)
        ensures
            final(self)@ == (MitchView { phase: Phase::StopWrite, ..old(self)@ }),
            r == Step::Write(Command::StopStream),
    {
        self.phase = Phase::StopWrite;
        Step::Write(Command::StopStream)
    }

    fn query_failed(&mut self, absorb: bool, e: SessionError) -> (r: Step)
        ensures
            final(self)@ == idle(old(self)@),
            r == query_outcome(absorb, e),
    {
        self.phase = Phase::Idle;
        if absorb {
            Step::Finished
        } else {
            Step::Failed(e)
        }
    }

    fn finish(&mut self, e: SessionError) -> (r: Step)
        ensures
            (final(self)@, r) == fail(old(self)@, e),
    {
        self.phase = Phase::Idle;
        Step::Failed(e)
    }

    fn read_status(&mut self, absorb: bool, frame: &Vec<u8>) -> (r: Step)
        ensures
            (final(self)@, r) == advance(
                MitchView { phase: Phase::QueryRead { absorb }, ..old(self)@ },
                Event::Response(*frame),
            ),
    {
        if frame.len() > STATUS_OFFSET {
            match MitchState::try_from(frame[STATUS_OFFSET]) {
                Ok(s) => {
                    self.state = Some(s);
                    self.phase = Phase::Idle;
                    Step::Finished
                },
                Err(e) => self.query_failed(absorb, e),
            }
        } else {
            self.query_failed(absorb, SessionError::UnknownState)
        }
    }

    /// Takes the outcome of the last step and says what to do next.
    pub fn resume(&mut self, ev: Event) -> (r: Step)
        ensures
            (final(self)@, r) == advance(old(self)@, ev),
    {
        let ok = matches!(ev, Event::Done);
        match self.phase {
            Phase::Idle => Step::Finished,
            Phase::Connecting => {
                if ok {
                    self.phase = Phase::Discovering;
                    Step::DiscoverServices
                } else {
                    self.finish(SessionError::Transport)
                }
            },
            Phase::Discovering => {
                if ok {
                    self.connected = true;
                    self.phase = Phase::QueryWrite { absorb: true };
                    Step::Write(Command::GetState)
                } else {
                    self.finish(SessionError::Transport)
                }
            },
            Phase::Disconnecting => {
                if ok {
                    self.connected = false;
                    self.phase = Phase::Idle;
                    Step::Finished
                } else {
                    self.finish(SessionError::Transport)
                }
            },
            Phase::QueryWrite { absorb } => {
                if ok {
                    self.phase = Phase::QueryRead { absorb };
                    Step::ReadResponse
                } else {
                    self.connected = false;
                    self.state = None;
                    self.query_failed(absorb, SessionError::Transport)
                }
            },
            Phase::QueryRead { absorb } => {
                match ev {
                    Event::Response(frame) => self.read_status(absorb, &frame),
                    _ => self.query_failed(absorb, SessionError::Transport),
                }
            },
            Phase::StartSubscribe { kind } => {
                if ok {
                    self.phase = Phase::StartWrite { kind };
                    Step::Write(Command::from_recording(kind))
                } else {
                    self.finish(SessionError::Transport)
                }
            },
            Phase::StartWrite { kind } => {
                if ok {
                    self.phase = Phase::StartRead { kind };
                    Step::ReadResponse
                } else {
                    self.finish(SessionError::Transport)
                }
            },
            Phase::StartRead { kind } => {
                if matches!(ev, Event::Response(_)) {
                    self.phase = Phase::StartSpawn { kind };
                    Step::Spawn(kind)
                } else {
                    self.finish(SessionError::Transport)
                }
            },
            Phase::StartSpawn { kind } => {
                if ok {
                    self.recording = true;
                    self.phase = Phase::QueryWrite { absorb: false };
                    Step::Write(Command::GetState)
                } else {
                    self.finish(SessionError::StreamSetup)
                }
            },
            Phase::StopWrite => {
                if ok {
                    self.phase = Phase::StopRead;
                    Step::ReadResponse
                } else {
                    self.finish(SessionError::Transport)
                }
            },
            Phase::StopRead => {
                if matches!(ev, Event::Response(_)) {
                    if self.recording {
                        self.phase = Phase::StopCancel;
                        Step::Cancel
                    } else {
                        self.phase = Phase::QueryWrite { absorb: false };
                        Step::Write(Command::GetState)
                    }
                } else {
                    self.finish(SessionError::Transport)
                }
            },
            Phase::StopCancel => {
                self.recording = false;
                self.phase = Phase::QueryWrite { absorb: false };
                Step::Write(Command::GetState)
            },
        }
    }
}

/// What the control surface is shown of a session.
#[derive(Debug)]
pub struct SerializableMitch {
    pub name: String,
    pub connected: bool,
    pub state: Option<MitchState>,
}

impl SerializableMitch {
    /// The summary of a session.
    pub fn from(value: &Mitch) -> (r: SerializableMitch)
        ensures
            r.name@ == value@.name,
            r.connected == value@.connected,
            r.state == value@.state,
    {
        SerializableMitch { name: value.name.clone(), connected: value.connected, state: value.state }
    }
}

/// Once the transport connect and service discovery succeed the session is
/// connected. If the state query that follows an acknowledged GetState write
/// then fails, by a failed read or an undecodable status, the session stays
/// connected, keeps the state it had, and the connect still succeeds.
pub proof fn lemma_connect_sets_connected(m: MitchView, read: Event)
    requires
        m.phase == Phase::Connecting,
    ensures
        ({
            let m1 = advance(m, Event::Done).0;
            let m2 = advance(m1, Event::Done).0;
            let (m3, r2) = advance(m2, Event::Done);
            let (m4, r3) = advance(m3, read);
            &&& m2.connected
            &&& r2 == Step::ReadResponse
            &&& m4.connected
            &&& r3 == Step::Finished
            &&& m4.phase == Phase::Idle
            &&& (match response_of(read) {
                Some(frame) => status_of(frame) is None,
                None => true,
            }) ==> m4.state == m.state
        }),
{
}

/// A failed GetState write always leaves the session disconnected with its
/// state unknown, whatever it was before.
pub proof fn lemma_query_write_failure_demotes(m: MitchView, ev: Event)
    requires
        m.phase is QueryWrite,
        !(ev is Done),
    ensures
        !advance(m, ev).0.connected,
        advance(m, ev).0.state is None,
{
}

/// After the stop command's response, a held streaming task is cancelled and
/// released before the state query; with no task held nothing is cancelled
/// and the state query follows at once. Neither case fails the stop.
pub proof fn lemma_stop_cancels_held_task(m: MitchView, frame: Vec<u8>, cancelled: Event)
    requires
        m.phase == Phase::StopRead,
    ensures
        ({
            let (m1, r1) = advance(m, Event::Response(frame));
            if m.recording {
                let (m2, r2) = advance(m1, cancelled);
                &&& r1 == Step::Cancel
                &&& !m2.recording
                &&& r2 == Step::Write(Command::GetState)
            } else {
                &&& r1 == Step::Write(Command::GetState)
                &&& !m1.recording
            }
        }),
{
}

} // verus!

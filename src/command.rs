use vstd::prelude::*;

use crate::recording::Recording;

verus! {

/// Commands written to the command characteristic.
#[derive(Clone, Copy, Debug, PartialEq, Eq, Structural)]
pub enum Command {
    GetState,
    StartAccelerometryStream,
    StartPressureStream,
    StopStream,
}

/// The bytes that encode each command.
pub open spec fn command_bytes(c: Command) -> Seq<u8> {
    match c {
        Command::GetState => seq![0x82u8, 0x00u8],
        Command::StartAccelerometryStream => seq![0x02u8, 0x03u8, 0xF8u8, 0x04u8, 0x04u8],
        Command::StartPressureStream => seq![0x02u8, 0x03u8, 0xF8u8, 0x01u8, 0x04u8],
        Command::StopStream => seq![0x02u8, 0x01u8, 0x02u8],
    }
}

/// The command that starts a stream of the given kind.
pub open spec fn start_command(r: Recording) -> Command {
    match r {
        Recording::Accelerometry => Command::StartAccelerometryStream,
        Recording::Pressure => Command::StartPressureStream,
    }
}

impl Command {
    /// The command that starts a stream of the given kind.
    pub fn from_recording(value: Recording) -> (r: Command)
        ensures
            r == start_command(value),
    {
        match value {
            Recording::Accelerometry => Command::StartAccelerometryStream,
            Recording::Pressure => Command::StartPressureStream,
        }
    }

    /// The bytes written for this command.
    pub fn bytes(&self) -> (r: Vec<u8>)
        ensures
            r@ == command_bytes(*self),
    {
        let r = match self {
            Command::GetState => vec![0x82u8, 0x00u8],
            Command::StartAccelerometryStream => vec![0x02u8, 0x03u8, 0xF8u8, 0x04u8, 0x04u8],
            Command::StartPressureStream => vec![0x02u8, 0x03u8, 0xF8u8, 0x01u8, 0x04u8],
            Command::StopStream => vec![0x02u8, 0x01u8, 0x02u8],
        };
        assert(r@ =~= command_bytes(*self));
        r
    }
}

} // verus!

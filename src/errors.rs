use vstd::prelude::*;

verus! {

/// Errors reported to the control surface for connection management.
#[derive(Clone, Copy, Debug, PartialEq, Eq, Structural)]
pub enum Error {
    Connect,
    Disconnect,
}

/// Failure of one device session operation.
#[derive(Clone, Copy, Debug, PartialEq, Eq, Structural)]
pub enum SessionError {
    /// A transport connect, disconnect, write, read or subscribe failed.
    Transport,
    /// A status byte is not one of the known device states.
    UnknownState,
    /// The telemetry stream could not be set up.
    StreamSetup,
}

pub open spec fn error_name(e: Error) -> Seq<char> {
    match e {
        Error::Connect => "Connect"@,
        Error::Disconnect => "Disconnect"@,
    }
}

impl Error {
    /// The name of the error, as shown to the user.
    pub fn message(&self) -> (r: String)
        ensures
            r@ == error_name(*self),
    {
        match self {
            Error::Connect => "Connect".to_owned(),
            Error::Disconnect => "Disconnect".to_owned(),
        }
    }
}

} // verus!

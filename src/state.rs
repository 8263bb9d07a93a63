use vstd::prelude::*;

use crate::errors::SessionError;

verus! {

/// Operating state reported by a device: system states and boot states.
#[derive(Clone, Copy, Debug, PartialEq, Eq, Structural, Hash)]
pub enum MitchState {
    SysStartup,
    SysIdle,
    SysStandby,
    SysLog,
    SysReadout,
    SysTx,
    SysError,
    BootStartup,
    BootIdle,
    BootDownload,
}

/// The wire code of each state.
pub open spec fn state_code(s: MitchState) -> u8 {
    match s {
        MitchState::SysStartup => 0x01,
        MitchState::SysIdle => 0x02,
        MitchState::SysStandby => 0x03,
        MitchState::SysLog => 0x04,
        MitchState::SysReadout => 0x05,
        MitchState::SysTx => 0xF8,
        MitchState::SysError => 0xFF,
        MitchState::BootStartup => 0xF0,
        MitchState::BootIdle => 0xF1,
        MitchState::BootDownload => 0xF2,
    }
}

/// The bytes that name a state.
pub open spec fn is_state_code(b: u8) -> bool {
    (1 <= b && b <= 5) || b == 0xF8 || b == 0xFF || b == 0xF0 || b == 0xF1 || b == 0xF2
}

/// The state that a byte names, if any.
pub open spec fn state_of(b: u8) -> Option<MitchState> {
    if b == 0x01 {
        Some(MitchState::SysStartup)
    } else if b == 0x02 {
        Some(MitchState::SysIdle)
    } else if b == 0x03 {
        Some(MitchState::SysStandby)
    } else if b == 0x04 {
        Some(MitchState::SysLog)
    } else if b == 0x05 {
        Some(MitchState::SysReadout)
    } else if b == 0xF8 {
        Some(MitchState::SysTx)
    } else if b == 0xFF {
        Some(MitchState::SysError)
    } else if b == 0xF0 {
        Some(MitchState::BootStartup)
    } else if b == 0xF1 {
        Some(MitchState::BootIdle)
    } else if b == 0xF2 {
        Some(MitchState::BootDownload)
    } else {
        None
    }
}

impl MitchState {
    /// The wire code of this state.
    pub fn code(&self) -> (r: u8)
        ensures
            r == state_code(*self),
    {
        match self {
            MitchState::SysStartup => 0x01,
            MitchState::SysIdle => 0x02,
            MitchState::SysStandby => 0x03,
            MitchState::SysLog => 0x04,
            MitchState::SysReadout => 0x05,
            MitchState::SysTx => 0xF8,
            MitchState::SysError => 0xFF,
            MitchState::BootStartup => 0xF0,
            MitchState::BootIdle => 0xF1,
            MitchState::BootDownload => 0xF2,
        }
    }

    /// Decodes a status byte through an exhaustive table.
    pub fn try_from(value: u8) -> (r: Result<MitchState, SessionError>)
        ensures
            r is Ok <==> is_state_code(value),
            r is Ok ==> state_code(r->Ok_0) == value && state_of(value) == Some(r->Ok_0),
            r is Err ==> r->Err_0 == SessionError::UnknownState && state_of(value) is None,
    {
        match value {
            0x01 => Ok(MitchState::SysStartup),
            0x02 => Ok(MitchState::SysIdle),
            0x03 => Ok(MitchState::SysStandby),
            0x04 => Ok(MitchState::SysLog),
            0x05 => Ok(MitchState::SysReadout),
            0xF8 => Ok(MitchState::SysTx),
            0xFF => Ok(MitchState::SysError),
            0xF0 => Ok(MitchState::BootStartup),
            0xF1 => Ok(MitchState::BootIdle),
            0xF2 => Ok(MitchState::BootDownload),
            _ => Err(SessionError::UnknownState),
        }
    }
}

/// Decodes a status byte: a known state, or `UnknownState`.
pub fn decode_state(b: u8) -> (r: Result<MitchState, SessionError>)
    ensures
        r is Ok <==> is_state_code(b),
        r is Ok ==> state_code(r->Ok_0) == b && state_of(b) == Some(r->Ok_0),
        r is Err ==> r->Err_0 == SessionError::UnknownState && state_of(b) is None,
{
    MitchState::try_from(b)
}

/// Every state's code decodes back to that state.
pub proof fn lemma_code_round_trip(s: MitchState)
    ensures
        is_state_code(state_code(s)),
        state_of(state_code(s)) == Some(s),
{
}

} // verus!

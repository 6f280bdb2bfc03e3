//! The wire protocol spoken with the worker: magic numbers, command and
//! status codes, and the byte layout of every message.

pub mod commands;
pub mod header;
pub mod laws;
pub mod replies;
pub mod shm;

pub use commands::{
    CmdInitAudio, CmdLoadPlugin, CmdMidi, CmdParam, CmdProcessAudio, MidiEvent,
};
pub use header::{Header, ResponseHeader};
pub use replies::{
    ParamChangeEvent, RespEditorInfo, RespParamInfo, RespParamInfoView, RespPluginInfo,
    RespPluginInfoView,
};
pub use shm::ShmHeader;

use vstd::prelude::*;
use vstd::std_specs::convert::FromSpecImpl;

verus! {

/// Magic of a request header: the bytes "RWNH".
pub const RACK_WINE_MAGIC: u32 = 0x484E5752;

/// Magic of a response header: the bytes "RWNR".
pub const RACK_WINE_RESPONSE_MAGIC: u32 = 0x524E5752;

/// Magic of the shared audio region: the bytes "RWAS".
pub const RACK_WINE_SHM_MAGIC: u32 = 0x52574153;

/// Version of the protocol.
pub const RACK_WINE_PROTOCOL_VERSION: u32 = 1;

/// First TCP port on which the worker may listen.
pub const RACK_WINE_PORT_BASE: u16 = 47100;

/// Last TCP port on which the worker may listen.
pub const RACK_WINE_PORT_MAX: u16 = 47199;

/// The commands of the protocol.
#[derive(Debug, Clone, Copy, PartialEq, Eq, Structural)]
pub enum HostCommand {
    Ping,
    LoadPlugin,
    UnloadPlugin,
    GetInfo,
    Init,
    Process,
    GetParamCount,
    GetParamInfo,
    GetParam,
    SetParam,
    SendMidi,
    GetState,
    SetState,
    OpenEditor,
    CloseEditor,
    GetEditorSize,
    GetParamChanges,
    InitAudio,
    ProcessAudio,
    Shutdown,
}

impl HostCommand {
    /// The number that stands for the command on the wire. The numbers are
    /// those of the protocol's list of commands; that list names
    /// `GetParamChanges` without a number, and 17 is this library's own
    /// choice for it from the numbers that the list leaves free.
    pub open spec fn wire_code(self) -> u32 {
        match self {
            HostCommand::Ping => 1,
            HostCommand::LoadPlugin => 2,
            HostCommand::UnloadPlugin => 3,
            HostCommand::GetInfo => 4,
            HostCommand::Init => 5,
            HostCommand::Process => 6,
            HostCommand::GetParamCount => 7,
            HostCommand::GetParamInfo => 8,
            HostCommand::GetParam => 9,
            HostCommand::SetParam => 10,
            HostCommand::SendMidi => 11,
            HostCommand::GetState => 12,
            HostCommand::SetState => 13,
            HostCommand::OpenEditor => 14,
            HostCommand::CloseEditor => 15,
            HostCommand::GetEditorSize => 16,
            HostCommand::GetParamChanges => 17,
            HostCommand::InitAudio => 20,
            HostCommand::ProcessAudio => 21,
            HostCommand::Shutdown => 99,
        }
    }

    /// The number that stands for the command on the wire.
    #[verifier::when_used_as_spec(wire_code)]
    pub fn code(self) -> (c: u32)
        ensures
            c == self.wire_code(),
    {
        match self {
            HostCommand::Ping => 1,
            HostCommand::LoadPlugin => 2,
            HostCommand::UnloadPlugin => 3,
            HostCommand::GetInfo => 4,
            HostCommand::Init => 5,
            HostCommand::Process => 6,
            HostCommand::GetParamCount => 7,
            HostCommand::GetParamInfo => 8,
            HostCommand::GetParam => 9,
            HostCommand::SetParam => 10,
            HostCommand::SendMidi => 11,
            HostCommand::GetState => 12,
            HostCommand::SetState => 13,
            HostCommand::OpenEditor => 14,
            HostCommand::CloseEditor => 15,
            HostCommand::GetEditorSize => 16,
            HostCommand::GetParamChanges => 17,
            HostCommand::InitAudio => 20,
            HostCommand::ProcessAudio => 21,
            HostCommand::Shutdown => 99,
        }
    }
}

/// No two commands share a code.
pub proof fn lemma_codes_distinct(a: HostCommand, b: HostCommand)
    ensures
        a.wire_code() == b.wire_code() <==> a == b,
{
}

/// The status that a response carries.
#[derive(Debug, Clone, Copy, PartialEq, Eq, Structural)]
pub enum Status {
    Success,
    Error,
    NotLoaded,
    NotInitialized,
    InvalidParam,
}

impl Status {
    /// The status that `value` stands for; a value outside the five known
    /// ones reads as `Error`.
    pub open spec fn of(value: u32) -> Status {
        if value == 0 {
            Status::Success
        } else if value == 2 {
            Status::NotLoaded
        } else if value == 3 {
            Status::NotInitialized
        } else if value == 4 {
            Status::InvalidParam
        } else {
            Status::Error
        }
    }
}

impl From<u32> for Status {
    fn from(value: u32) -> (s: Status) {
        match value {
            0 => Status::Success,
            1 => Status::Error,
            2 => Status::NotLoaded,
            3 => Status::NotInitialized,
            4 => Status::InvalidParam,
            _ => Status::Error,
        }
    }
}

impl FromSpecImpl<u32> for Status {
    open spec fn obeys_from_spec() -> bool {
        true
    }

    open spec fn from_spec(value: u32) -> Status {
        Status::of(value)
    }
}

} // verus!

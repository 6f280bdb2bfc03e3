//! What can go wrong in a session.

use vstd::prelude::*;
use vstd::string::StringExecFns;
use crate::text::{decimal, decimal_string};

verus! {

/// Why the wire or the shared region can no longer be relied on.
#[derive(Debug, Clone, Copy, PartialEq, Eq, Structural)]
pub enum Fault {
    /// Reading from or writing to the socket failed or timed out.
    Io,
    /// A response did not open with the response magic.
    BadMagic,
    /// A response was shorter than what it has to carry.
    MalformedReply,
    /// The shared region is smaller than what its header announces.
    CorruptRegion,
}

/// Why a session could not be set up or armed.
#[derive(Debug, Clone, Copy, PartialEq, Eq, Structural)]
pub enum SetupFault {
    /// The worker process could not be started.
    Spawn,
    /// No port of the reserved range accepted a connection.
    Connect,
    /// The shared region could not be created, sized or mapped.
    SharedMemory,
    /// The audio plane is too large for the offsets of its header.
    Geometry,
    /// The session is armed already.
    AlreadyArmed,
}

/// The errors of the bridge.
#[derive(Debug, Clone, Copy, PartialEq, Eq, Structural)]
pub enum Error {
    /// The session cannot go on.
    Transport(Fault),
    /// No plug-in is loaded, or the session is not armed.
    NotInitialized,
    /// An index, a count or a value is out of range; the number is the one
    /// that was refused.
    InvalidParameter(usize),
    /// The worker answered with its error status.
    Worker,
    /// Setting up or arming failed.
    Setup(SetupFault),
    /// The operation is not offered by this version of the protocol.
    Unsupported,
}

impl Error {
    /// Whether the session is over: so after a transport fault, and after
    /// no other error.
    pub open spec fn ends_session(&self) -> bool {
        *self is Transport
    }

    /// Whether the session is over.
    #[verifier::when_used_as_spec(ends_session)]
    pub fn is_fatal(&self) -> (fatal: bool)
        ensures
            fatal == self.ends_session(),
    {
        match self {
            Error::Transport(_) => true,
            _ => false,
        }
    }

    /// The text of the error.
    pub open spec fn text(&self) -> Seq<char> {
        match *self {
            Error::Transport(Fault::Io) => "Failed to talk to Wine host"@,
            Error::Transport(Fault::BadMagic) => "Invalid response magic"@,
            Error::Transport(Fault::MalformedReply) => "Invalid response payload"@,
            Error::Transport(Fault::CorruptRegion) => "Shared memory does not match its header"@,
            Error::NotInitialized => "Plugin not initialized"@,
            Error::InvalidParameter(index) => "Invalid parameter index: "@ + decimal(index as nat),
            Error::Worker => "Wine host returned error"@,
            Error::Setup(SetupFault::Spawn) => "Failed to spawn Wine host"@,
            Error::Setup(SetupFault::Connect) => "Failed to connect to Wine host"@,
            Error::Setup(SetupFault::SharedMemory) => "Failed to set up shared memory"@,
            Error::Setup(SetupFault::Geometry) => "Audio buffers too large for shared memory"@,
            Error::Setup(SetupFault::AlreadyArmed) => "Plugin already initialized"@,
            Error::Unsupported => "Not implemented"@,
        }
    }

    /// The text of the error, for a person to read.
    pub fn message(&self) -> (s: String)
        ensures
            s@ == self.text(),
    {
        match self {
            Error::Transport(Fault::Io) => String::from_str("Failed to talk to Wine host"),
            Error::Transport(Fault::BadMagic) => String::from_str("Invalid response magic"),
            Error::Transport(Fault::MalformedReply) => String::from_str(
                "Invalid response payload",
            ),
            Error::Transport(Fault::CorruptRegion) => String::from_str(
                "Shared memory does not match its header",
            ),
            Error::NotInitialized => String::from_str("Plugin not initialized"),
            Error::InvalidParameter(index) => {
                let digits: String = decimal_string(*index as u64);
                String::from_str("Invalid parameter index: ").concat(digits.as_str())
            },
            Error::Worker => String::from_str("Wine host returned error"),
            Error::Setup(SetupFault::Spawn) => String::from_str("Failed to spawn Wine host"),
            Error::Setup(SetupFault::Connect) => String::from_str(
                "Failed to connect to Wine host",
            ),
            Error::Setup(SetupFault::SharedMemory) => String::from_str(
                "Failed to set up shared memory",
            ),
            Error::Setup(SetupFault::Geometry) => String::from_str(
                "Audio buffers too large for shared memory",
            ),
            Error::Setup(SetupFault::AlreadyArmed) => String::from_str(
                "Plugin already initialized",
            ),
            Error::Unsupported => String::from_str("Not implemented"),
        }
    }
}

} // verus!

//! The fixed headers that open every request and every response.

use vstd::prelude::*;
use crate::bytes::{read_u32, u32_from_le, u32_le, write_u32};
use crate::protocol::{HostCommand, Status, RACK_WINE_MAGIC, RACK_WINE_PROTOCOL_VERSION};

verus! {

/// Header of a request: sixteen bytes.
#[derive(Debug, Clone, Copy, PartialEq, Eq, Structural)]
pub struct Header {
    pub magic: u32,
    pub version: u32,
    pub command: u32,
    pub payload_size: u32,
}

impl Header {
    /// The header of a request for `command` with `payload_size` bytes of
    /// payload.
    pub open spec fn request(command: HostCommand, payload_size: u32) -> Header {
        Header {
            magic: RACK_WINE_MAGIC,
            version: RACK_WINE_PROTOCOL_VERSION,
            command: command.wire_code(),
            payload_size,
        }
    }

    /// The sixteen bytes of the header on the wire.
    pub open spec fn wire(self) -> Seq<u8> {
        u32_le(self.magic) + u32_le(self.version) + u32_le(self.command) + u32_le(
            self.payload_size,
        )
    }

    /// The header that sixteen bytes stand for.
    pub open spec fn parse(b: Seq<u8>) -> Header
        recommends
            b.len() == 16,
    {
        Header {
            magic: u32_from_le(b.subrange(0, 4)),
            version: u32_from_le(b.subrange(4, 8)),
            command: u32_from_le(b.subrange(8, 12)),
            payload_size: u32_from_le(b.subrange(12, 16)),
        }
    }

    /// The header of a request for `command` with `payload_size` bytes of
    /// payload: the request magic and the version of the protocol before them.
    pub fn new(command: HostCommand, payload_size: u32) -> (h: Header)
        ensures
            h == Header::request(command, payload_size),
    {
        Header {
            magic: RACK_WINE_MAGIC,
            version: RACK_WINE_PROTOCOL_VERSION,
            command: command.code(),
            payload_size,
        }
    }

    /// The sixteen bytes of the header.
    pub fn to_bytes(&self) -> (b: [u8; 16])
        ensures
            b@ == self.wire(),
    {
        let mut buf: [u8; 16] = [0u8; 16];
        write_u32(&mut buf, 0, self.magic);
        write_u32(&mut buf, 4, self.version);
        write_u32(&mut buf, 8, self.command);
        write_u32(&mut buf, 12, self.payload_size);
        assert(buf@ =~= self.wire());
        buf
    }

    /// Reads a header from its sixteen bytes, whatever they hold.
    pub fn from_bytes(buf: &[u8; 16]) -> (h: Header)
        ensures
            h == Header::parse(buf@),
    {
        Header {
            magic: read_u32(buf, 0),
            version: read_u32(buf, 4),
            command: read_u32(buf, 8),
            payload_size: read_u32(buf, 12),
        }
    }
}

/// Header of a response: twelve bytes.
#[derive(Debug, Clone, Copy, PartialEq, Eq, Structural)]
pub struct ResponseHeader {
    pub magic: u32,
    pub status: u32,
    pub payload_size: u32,
}

impl ResponseHeader {
    /// The twelve bytes of the header on the wire.
    pub open spec fn wire(self) -> Seq<u8> {
        u32_le(self.magic) + u32_le(self.status) + u32_le(self.payload_size)
    }

    /// The header that twelve bytes stand for.
    pub open spec fn parse(b: Seq<u8>) -> ResponseHeader
        recommends
            b.len() == 12,
    {
        ResponseHeader {
            magic: u32_from_le(b.subrange(0, 4)),
            status: u32_from_le(b.subrange(4, 8)),
            payload_size: u32_from_le(b.subrange(8, 12)),
        }
    }

    /// Reads a header from its twelve bytes, whatever they hold.
    pub fn from_bytes(buf: &[u8; 12]) -> (h: ResponseHeader)
        ensures
            h == ResponseHeader::parse(buf@),
    {
        ResponseHeader {
            magic: read_u32(buf, 0),
            status: read_u32(buf, 4),
            payload_size: read_u32(buf, 8),
        }
    }

    /// The status that the header carries; a value outside the known ones
    /// reads as an error.
    pub fn status(&self) -> (s: Status)
        ensures
            s == Status::of(self.status),
    {
        Status::from(self.status)
    }
}

} // verus!

//! The packets without content: PINGREQ, PINGRESP and DISCONNECT.

use vstd::prelude::*;
use crate::error::{DecodeError, EncodeError};
use crate::packet::codec::{decoded, encoded};

verus! {

/// First byte of a PINGREQ packet.
pub const PINGREQ_HEADER: u8 = 0xc0;

/// First byte of a PINGRESP packet.
pub const PINGRESP_HEADER: u8 = 0xd0;

/// First byte of a DISCONNECT packet.
pub const DISCONNECT_HEADER: u8 = 0xe0;

/// PINGREQ: the client's keep-alive probe.
#[derive(Clone, Copy, Debug, PartialEq, Eq, Structural)]
pub struct PingreqPacket {}

/// PINGRESP: the broker's answer to PINGREQ.
#[derive(Clone, Copy, Debug, PartialEq, Eq, Structural)]
pub struct PingrespPacket {}

/// DISCONNECT: the client's orderly goodbye.
#[derive(Clone, Copy, Debug, PartialEq, Eq, Structural)]
pub struct DisconnectPacket {}

impl View for PingreqPacket {
    type V = PingreqPacket;

    open spec fn view(&self) -> PingreqPacket {
        *self
    }
}

impl View for PingrespPacket {
    type V = PingrespPacket;

    open spec fn view(&self) -> PingrespPacket {
        *self
    }
}

impl View for DisconnectPacket {
    type V = DisconnectPacket;

    open spec fn view(&self) -> DisconnectPacket {
        *self
    }
}

/// A packet without content on the wire: the first byte and a remaining
/// length of zero.
pub open spec fn bare_wire(first: u8) -> Seq<u8> {
    seq![first, 0u8]
}

/// Reads the PINGRESP packet that `buf` begins with. Gives the packet and
/// the two bytes that it takes up.
pub open spec fn parse_pingresp(buf: Seq<u8>) -> Result<(PingrespPacket, nat), DecodeError> {
    if buf.len() == 0 {
        Err(DecodeError::Truncated)
    } else if buf[0] != PINGRESP_HEADER {
        Err(DecodeError::MalformedHeader)
    } else if buf.len() < 2 {
        Err(DecodeError::Truncated)
    } else if buf[1] != 0 {
        Err(DecodeError::WrongRemainingLength)
    } else {
        Ok((PingrespPacket {  }, 2))
    }
}

fn serialize_bare(first: u8) -> (bytes: Vec<u8>)
    ensures
        bytes@ == bare_wire(first),
{
    let mut bytes: Vec<u8> = Vec::new();
    bytes.push(first);
    bytes.push(0);
    assert(bytes@ =~= bare_wire(first));
    bytes
}

impl PingreqPacket {
    /// The packet as bytes.
    pub fn serialize(&self) -> (r: Result<Vec<u8>, EncodeError>)
        ensures
            encoded(r) == Ok::<Seq<u8>, EncodeError>(bare_wire(PINGREQ_HEADER)),
    {
        Ok(serialize_bare(PINGREQ_HEADER))
    }

    /// A client never receives PINGREQ: there is nothing to read.
    pub fn deserialize(buf: &[u8]) -> (r: Result<(Self, usize), DecodeError>)
        ensures
            decoded(r) == Err::<(PingreqPacket, nat), DecodeError>(DecodeError::NotSupported),
    {
        Err(DecodeError::NotSupported)
    }
}

impl PingrespPacket {
    /// A client never sends PINGRESP: there is nothing to write.
    pub fn serialize(&self) -> (r: Result<Vec<u8>, EncodeError>)
        ensures
            encoded(r) == Err::<Seq<u8>, EncodeError>(EncodeError::NotSupported),
    {
        Err(EncodeError::NotSupported)
    }

    /// Reads the PINGRESP packet that `buf` begins with. Gives the packet
    /// and the two bytes that it takes up.
    pub fn deserialize(buf: &[u8]) -> (r: Result<(Self, usize), DecodeError>)
        ensures
            decoded(r) == parse_pingresp(buf@),
    {
        if buf.len() == 0 {
            return Err(DecodeError::Truncated);
        }
        if buf[0] != PINGRESP_HEADER {
            return Err(DecodeError::MalformedHeader);
        }
        if buf.len() < 2 {
            return Err(DecodeError::Truncated);
        }
        if buf[1] != 0 {
            return Err(DecodeError::WrongRemainingLength);
        }
        Ok((PingrespPacket {  }, 2))
    }
}

impl DisconnectPacket {
    /// The packet as bytes.
    pub fn serialize(&self) -> (r: Result<Vec<u8>, EncodeError>)
        ensures
            encoded(r) == Ok::<Seq<u8>, EncodeError>(bare_wire(DISCONNECT_HEADER)),
    {
        Ok(serialize_bare(DISCONNECT_HEADER))
    }

    /// A client never receives DISCONNECT: there is nothing to read.
    pub fn deserialize(buf: &[u8]) -> (r: Result<(Self, usize), DecodeError>)
        ensures
            decoded(r) == Err::<(DisconnectPacket, nat), DecodeError>(DecodeError::NotSupported),
    {
        Err(DecodeError::NotSupported)
    }
}

} // verus!

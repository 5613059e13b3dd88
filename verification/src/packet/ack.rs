//! The acknowledgments that carry nothing but a packet identifier:
//! PUBACK, PUBREC, PUBREL, PUBCOMP and UNSUBACK.

use vstd::prelude::*;
use crate::error::{DecodeError, EncodeError};
use crate::packet::codec::{be16, be16_value, decoded, encoded, push_u16, read_u16};
use crate::packet::remaining_length::{encode_length, frame};

verus! {

/// First byte of a PUBACK packet.
pub const PUBACK_HEADER: u8 = 0x40;

/// First byte of a PUBREC packet.
pub const PUBREC_HEADER: u8 = 0x50;

/// First byte of a PUBREL packet; the low bits are fixed by the protocol.
pub const PUBREL_HEADER: u8 = 0x62;

/// First byte of a PUBCOMP packet.
pub const PUBCOMP_HEADER: u8 = 0x70;

/// First byte of an UNSUBACK packet.
pub const UNSUBACK_HEADER: u8 = 0xb0;

/// An acknowledgment on the wire: the first byte, a remaining length of two,
/// and the packet identifier.
pub open spec fn ack_wire(first: u8, packet_id: u16) -> Seq<u8> {
    seq![first, 2u8] + be16(packet_id)
}

/// Reads the acknowledgment with first byte `first` that `buf` begins with.
/// Gives its packet identifier and the four bytes that it takes up.
pub open spec fn parse_ack(first: u8, buf: Seq<u8>) -> Result<(u16, nat), DecodeError> {
    if buf.len() == 0 {
        Err(DecodeError::Truncated)
    } else if buf[0] != first {
        Err(DecodeError::MalformedHeader)
    } else if buf.len() < 2 {
        Err(DecodeError::Truncated)
    } else if buf[1] != 2 {
        Err(DecodeError::WrongRemainingLength)
    } else if buf.len() < 4 {
        Err(DecodeError::Truncated)
    } else {
        Ok((be16_value(buf[2], buf[3]), 4))
    }
}

/// An acknowledgment is the frame around its packet identifier.
pub proof fn lemma_ack_is_frame(first: u8, packet_id: u16)
    ensures
        ack_wire(first, packet_id) == frame(first, be16(packet_id)),
{
    assert(encode_length(2) =~= seq![2u8]);
    assert(ack_wire(first, packet_id) =~= frame(first, be16(packet_id)));
}

/// Reading back an acknowledgment that was written gives its packet
/// identifier and the four bytes written, whatever follows them.
pub proof fn lemma_ack_round_trip(first: u8, packet_id: u16, rest: Seq<u8>)
    ensures
        parse_ack(first, ack_wire(first, packet_id) + rest) == Ok::<(u16, nat), DecodeError>(
            (packet_id, 4),
        ),
{
    let buf = ack_wire(first, packet_id) + rest;
    assert(buf[0] == first);
    assert(buf[1] == 2);
    assert(buf[2] == be16(packet_id)[0]);
    assert(buf[3] == be16(packet_id)[1]);
}

fn serialize_ack(first: u8, packet_id: u16) -> (bytes: Vec<u8>)
    ensures
        bytes@ == ack_wire(first, packet_id),
{
    let mut bytes: Vec<u8> = Vec::new();
    bytes.push(first);
    bytes.push(2);
    push_u16(&mut bytes, packet_id);
    assert(bytes@ =~= ack_wire(first, packet_id));
    bytes
}

fn deserialize_ack(first: u8, buf: &[u8]) -> (r: Result<(u16, usize), DecodeError>)
    ensures
        match r {
            Ok((packet_id, consumed)) => parse_ack(first, buf@) == Ok::<(u16, nat), DecodeError>(
                (packet_id, consumed as nat),
            ),
            Err(e) => parse_ack(first, buf@) == Err::<(u16, nat), DecodeError>(e),
        },
{
    if buf.len() == 0 {
        return Err(DecodeError::Truncated);
    }
    if buf[0] != first {
        return Err(DecodeError::MalformedHeader);
    }
    if buf.len() < 2 {
        return Err(DecodeError::Truncated);
    }
    if buf[1] != 2 {
        return Err(DecodeError::WrongRemainingLength);
    }
    if buf.len() < 4 {
        return Err(DecodeError::Truncated);
    }
    Ok((read_u16(buf, 2), 4))
}

/// PUBACK: the answer to a PUBLISH of quality of service 1.
#[derive(Clone, Copy, Debug, PartialEq, Eq, Structural)]
pub struct PubackPacket {
    pub packet_id: u16,
}

/// PUBREC: the first answer to a PUBLISH of quality of service 2.
#[derive(Clone, Copy, Debug, PartialEq, Eq, Structural)]
pub struct PubrecPacket {
    pub packet_id: u16,
}

/// PUBREL: the sender's release, which answers a PUBREC.
#[derive(Clone, Copy, Debug, PartialEq, Eq, Structural)]
pub struct PubrelPacket {
    pub packet_id: u16,
}

/// PUBCOMP: the answer to a PUBREL, which ends the exchange.
#[derive(Clone, Copy, Debug, PartialEq, Eq, Structural)]
pub struct PubcompPacket {
    pub packet_id: u16,
}

/// UNSUBACK: the broker's answer to an UNSUBSCRIBE.
#[derive(Clone, Copy, Debug, PartialEq, Eq, Structural)]
pub struct UnsubackPacket {
    pub packet_id: u16,
}

impl View for PubackPacket {
    type V = PubackPacket;

    open spec fn view(&self) -> PubackPacket {
        *self
    }
}

impl View for PubrecPacket {
    type V = PubrecPacket;

    open spec fn view(&self) -> PubrecPacket {
        *self
    }
}

impl View for PubrelPacket {
    type V = PubrelPacket;

    open spec fn view(&self) -> PubrelPacket {
        *self
    }
}

impl View for PubcompPacket {
    type V = PubcompPacket;

    open spec fn view(&self) -> PubcompPacket {
        *self
    }
}

impl View for UnsubackPacket {
    type V = UnsubackPacket;

    open spec fn view(&self) -> UnsubackPacket {
        *self
    }
}

impl PubackPacket {
    /// The packet on the wire.
    pub open spec fn wire(self) -> Seq<u8> {
        ack_wire(PUBACK_HEADER, self.packet_id)
    }

    /// Reads the PUBACK packet that `buf` begins with.
    pub open spec fn parse(buf: Seq<u8>) -> Result<(PubackPacket, nat), DecodeError> {
        match parse_ack(PUBACK_HEADER, buf) {
            Ok((packet_id, consumed)) => Ok((PubackPacket { packet_id }, consumed)),
            Err(e) => Err(e),
        }
    }

    /// The packet as bytes.
    pub fn serialize(&self) -> (r: Result<Vec<u8>, EncodeError>)
        ensures
            encoded(r) == Ok::<Seq<u8>, EncodeError>(self.wire()),
    {
        Ok(serialize_ack(PUBACK_HEADER, self.packet_id))
    }

    /// Reads the PUBACK packet that `buf` begins with. Gives the packet and
    /// the four bytes that it takes up.
    pub fn deserialize(buf: &[u8]) -> (r: Result<(Self, usize), DecodeError>)
        ensures
            decoded(r) == Self::parse(buf@),
    {
        let (packet_id, consumed) = deserialize_ack(PUBACK_HEADER, buf)?;
        Ok((PubackPacket { packet_id }, consumed))
    }
}

impl PubrecPacket {
    /// The packet on the wire.
    pub open spec fn wire(self) -> Seq<u8> {
        ack_wire(PUBREC_HEADER, self.packet_id)
    }

    /// Reads the PUBREC packet that `buf` begins with.
    pub open spec fn parse(buf: Seq<u8>) -> Result<(PubrecPacket, nat), DecodeError> {
        match parse_ack(PUBREC_HEADER, buf) {
            Ok((packet_id, consumed)) => Ok((PubrecPacket { packet_id }, consumed)),
            Err(e) => Err(e),
        }
    }

    /// The packet as bytes.
    pub fn serialize(&self) -> (r: Result<Vec<u8>, EncodeError>)
        ensures
            encoded(r) == Ok::<Seq<u8>, EncodeError>(self.wire()),
    {
        Ok(serialize_ack(PUBREC_HEADER, self.packet_id))
    }

    /// Reads the PUBREC packet that `buf` begins with. Gives the packet and
    /// the four bytes that it takes up.
    pub fn deserialize(buf: &[u8]) -> (r: Result<(Self, usize), DecodeError>)
        ensures
            decoded(r) == Self::parse(buf@),
    {
        let (packet_id, consumed) = deserialize_ack(PUBREC_HEADER, buf)?;
        Ok((PubrecPacket { packet_id }, consumed))
    }
}

impl PubrelPacket {
    /// The packet on the wire.
    pub open spec fn wire(self) -> Seq<u8> {
        ack_wire(PUBREL_HEADER, self.packet_id)
    }

    /// Reads the PUBREL packet that `buf` begins with.
    pub open spec fn parse(buf: Seq<u8>) -> Result<(PubrelPacket, nat), DecodeError> {
        match parse_ack(PUBREL_HEADER, buf) {
            Ok((packet_id, consumed)) => Ok((PubrelPacket { packet_id }, consumed)),
            Err(e) => Err(e),
        }
    }

    /// The packet as bytes.
    pub fn serialize(&self) -> (r: Result<Vec<u8>, EncodeError>)
        ensures
            encoded(r) == Ok::<Seq<u8>, EncodeError>(self.wire()),
    {
        Ok(serialize_ack(PUBREL_HEADER, self.packet_id))
    }

    /// Reads the PUBREL packet that `buf` begins with. Gives the packet and
    /// the four bytes that it takes up.
    pub fn deserialize(buf: &[u8]) -> (r: Result<(Self, usize), DecodeError>)
        ensures
            decoded(r) == Self::parse(buf@),
    {
        let (packet_id, consumed) = deserialize_ack(PUBREL_HEADER, buf)?;
        Ok((PubrelPacket { packet_id }, consumed))
    }
}

impl PubcompPacket {
    /// The packet on the wire.
    pub open spec fn wire(self) -> Seq<u8> {
        ack_wire(PUBCOMP_HEADER, self.packet_id)
    }

    /// Reads the PUBCOMP packet that `buf` begins with.
    pub open spec fn parse(buf: Seq<u8>) -> Result<(PubcompPacket, nat), DecodeError> {
        match parse_ack(PUBCOMP_HEADER, buf) {
            Ok((packet_id, consumed)) => Ok((PubcompPacket { packet_id }, consumed)),
            Err(e) => Err(e),
        }
    }

    /// The packet as bytes.
    pub fn serialize(&self) -> (r: Result<Vec<u8>, EncodeError>)
        ensures
            encoded(r) == Ok::<Seq<u8>, EncodeError>(self.wire()),
    {
        Ok(serialize_ack(PUBCOMP_HEADER, self.packet_id))
    }

    /// Reads the PUBCOMP packet that `buf` begins with. Gives the packet and
    /// the four bytes that it takes up.
    pub fn deserialize(buf: &[u8]) -> (r: Result<(Self, usize), DecodeError>)
        ensures
            decoded(r) == Self::parse(buf@),
    {
        let (packet_id, consumed) = deserialize_ack(PUBCOMP_HEADER, buf)?;
        Ok((PubcompPacket { packet_id }, consumed))
    }
}

impl UnsubackPacket {
    /// Reads the UNSUBACK packet that `buf` begins with.
    pub open spec fn parse(buf: Seq<u8>) -> Result<(UnsubackPacket, nat), DecodeError> {
        match parse_ack(UNSUBACK_HEADER, buf) {
            Ok((packet_id, consumed)) => Ok((UnsubackPacket { packet_id }, consumed)),
            Err(e) => Err(e),
        }
    }

    /// A client never sends UNSUBACK: there is nothing to write.
    pub fn serialize(&self) -> (r: Result<Vec<u8>, EncodeError>)
        ensures
            encoded(r) == Err::<Seq<u8>, EncodeError>(EncodeError::NotSupported),
    {
        Err(EncodeError::NotSupported)
    }

    /// Reads the UNSUBACK packet that `buf` begins with. Gives the packet
    /// and the four bytes that it takes up.
    pub fn deserialize(buf: &[u8]) -> (r: Result<(Self, usize), DecodeError>)
        ensures
            decoded(r) == Self::parse(buf@),
    {
        let (packet_id, consumed) = deserialize_ack(UNSUBACK_HEADER, buf)?;
        Ok((UnsubackPacket { packet_id }, consumed))
    }
}

} // verus!

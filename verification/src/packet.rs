//! The fourteen MQTT control packets and their wire format.

use vstd::prelude::*;
use vstd::slice::*;
use crate::error::{DecodeError, EncodeError};
use crate::qos::QoS;

pub mod ack;
pub mod codec;
pub mod connack;
pub mod connect;
pub mod ping;
pub mod publish;
pub mod remaining_length;
pub mod subscribe;
pub mod unsubscribe;

pub use self::ack::{PubackPacket, PubcompPacket, PubrecPacket, PubrelPacket, UnsubackPacket};
pub use self::connack::{ConnackPacket, ConnackView};
pub use self::connect::{ConnectPacket, ConnectView};
pub use self::ping::{DisconnectPacket, PingreqPacket, PingrespPacket};
pub use self::publish::{PublishPacket, PublishView};
pub use self::remaining_length::{extract_remaining_length, insert_remaining_length};
pub use self::subscribe::{SubackPacket, SubscribePacket, SubscribeView};
pub use self::unsubscribe::{UnsubscribePacket, UnsubscribeView};

use self::ack::{PUBACK_HEADER, PUBCOMP_HEADER, PUBREC_HEADER, PUBREL_HEADER};
use self::codec::{decoded, encoded};
use self::connack::parse_connack;
use self::ping::{bare_wire, parse_pingresp, DISCONNECT_HEADER, PINGREQ_HEADER};
use self::publish::parse_publish;
use self::subscribe::parse_suback;

verus! {

/// Any one of the fourteen control packets.
#[derive(Clone, Debug, PartialEq)]
pub enum PacketType {
    CONNECT(ConnectPacket),
    CONNACK(ConnackPacket),
    PUBLISH(PublishPacket),
    PUBACK(PubackPacket),
    PUBREC(PubrecPacket),
    PUBREL(PubrelPacket),
    PUBCOMP(PubcompPacket),
    SUBSCRIBE(SubscribePacket),
    SUBACK(SubackPacket),
    UNSUBSCRIBE(UnsubscribePacket),
    UNSUBACK(UnsubackPacket),
    PINGREQ(PingreqPacket),
    PINGRESP(PingrespPacket),
    DISCONNECT(DisconnectPacket),
}

/// What a packet holds, as mathematical values.
pub enum PacketView {
    CONNECT(ConnectView),
    CONNACK(ConnackView),
    PUBLISH(PublishView),
    PUBACK(PubackPacket),
    PUBREC(PubrecPacket),
    PUBREL(PubrelPacket),
    PUBCOMP(PubcompPacket),
    SUBSCRIBE(SubscribeView),
    SUBACK(SubackPacket),
    UNSUBSCRIBE(UnsubscribeView),
    UNSUBACK(UnsubackPacket),
    PINGREQ(PingreqPacket),
    PINGRESP(PingrespPacket),
    DISCONNECT(DisconnectPacket),
}

impl View for PacketType {
    type V = PacketView;

    open spec fn view(&self) -> PacketView {
        match *self {
            PacketType::CONNECT(p) => PacketView::CONNECT(p@),
            PacketType::CONNACK(p) => PacketView::CONNACK(p@),
            PacketType::PUBLISH(p) => PacketView::PUBLISH(p@),
            PacketType::PUBACK(p) => PacketView::PUBACK(p),
            PacketType::PUBREC(p) => PacketView::PUBREC(p),
            PacketType::PUBREL(p) => PacketView::PUBREL(p),
            PacketType::PUBCOMP(p) => PacketView::PUBCOMP(p),
            PacketType::SUBSCRIBE(p) => PacketView::SUBSCRIBE(p@),
            PacketType::SUBACK(p) => PacketView::SUBACK(p),
            PacketType::UNSUBSCRIBE(p) => PacketView::UNSUBSCRIBE(p@),
            PacketType::UNSUBACK(p) => PacketView::UNSUBACK(p),
            PacketType::PINGREQ(p) => PacketView::PINGREQ(p),
            PacketType::PINGRESP(p) => PacketView::PINGRESP(p),
            PacketType::DISCONNECT(p) => PacketView::DISCONNECT(p),
        }
    }
}

impl PacketView {
    /// What serializing gives: the wire form of the packet inside, or the
    /// reason why there is none.
    pub open spec fn encoding(self) -> Result<Seq<u8>, EncodeError> {
        match self {
            PacketView::CONNECT(p) => p.encoding(),
            PacketView::CONNACK(_) => Err(EncodeError::NotSupported),
            PacketView::PUBLISH(p) => p.encoding(),
            PacketView::PUBACK(p) => Ok(p.wire()),
            PacketView::PUBREC(p) => Ok(p.wire()),
            PacketView::PUBREL(p) => Ok(p.wire()),
            PacketView::PUBCOMP(p) => Ok(p.wire()),
            PacketView::SUBSCRIBE(p) => p.encoding(),
            PacketView::SUBACK(_) => Err(EncodeError::NotSupported),
            PacketView::UNSUBSCRIBE(p) => p.encoding(),
            PacketView::UNSUBACK(_) => Err(EncodeError::NotSupported),
            PacketView::PINGREQ(_) => Ok(bare_wire(PINGREQ_HEADER)),
            PacketView::PINGRESP(_) => Err(EncodeError::NotSupported),
            PacketView::DISCONNECT(_) => Ok(bare_wire(DISCONNECT_HEADER)),
        }
    }

    /// The packet that the receiver of this one owes its sender at once:
    /// PUBACK for a PUBLISH of quality of service 1, PUBREC for one of
    /// quality of service 2, PUBREL for a PUBREC and PUBCOMP for a PUBREL,
    /// each with the identifier of the packet it answers. Nothing is owed
    /// for any other packet.
    pub open spec fn reply(self) -> Option<PacketView> {
        match self {
            PacketView::PUBLISH(p) => match (p.qos, p.packet_id) {
                (QoS::QoS1, Some(packet_id)) => Some(
                    PacketView::PUBACK(PubackPacket { packet_id }),
                ),
                (QoS::QoS2, Some(packet_id)) => Some(
                    PacketView::PUBREC(PubrecPacket { packet_id }),
                ),
                _ => None,
            },
            PacketView::PUBREC(p) => Some(
                PacketView::PUBREL(PubrelPacket { packet_id: p.packet_id }),
            ),
            PacketView::PUBREL(p) => Some(
                PacketView::PUBCOMP(PubcompPacket { packet_id: p.packet_id }),
            ),
            _ => None,
        }
    }
}

/// A packet read by the decoder of one packet type, as a packet of any type.
pub open spec fn widen<V>(
    r: Result<(V, nat), DecodeError>,
    wrap: spec_fn(V) -> PacketView,
) -> Result<(PacketView, nat), DecodeError> {
    match r {
        Ok((packet, consumed)) => Ok((wrap(packet), consumed)),
        Err(e) => Err(e),
    }
}

/// Reads the packet that `buf` begins with, whatever its type: the high four
/// bits of the first byte choose the decoder. Gives the packet and the
/// number of bytes that it takes up.
pub open spec fn parse_packet(buf: Seq<u8>) -> Result<(PacketView, nat), DecodeError> {
    if buf.len() == 0 {
        Err(DecodeError::Truncated)
    } else {
        let kind = buf[0] / 16;
        if kind == 2 {
            widen(parse_connack(buf), |p| PacketView::CONNACK(p))
        } else if kind == 3 {
            widen(parse_publish(buf), |p| PacketView::PUBLISH(p))
        } else if kind == 4 {
            widen(PubackPacket::parse(buf), |p| PacketView::PUBACK(p))
        } else if kind == 5 {
            widen(PubrecPacket::parse(buf), |p| PacketView::PUBREC(p))
        } else if kind == 6 {
            widen(PubrelPacket::parse(buf), |p| PacketView::PUBREL(p))
        } else if kind == 7 {
            widen(PubcompPacket::parse(buf), |p| PacketView::PUBCOMP(p))
        } else if kind == 9 {
            widen(parse_suback(buf), |p| PacketView::SUBACK(p))
        } else if kind == 11 {
            widen(UnsubackPacket::parse(buf), |p| PacketView::UNSUBACK(p))
        } else if kind == 13 {
            widen(parse_pingresp(buf), |p| PacketView::PINGRESP(p))
        } else if kind == 1 || kind == 8 || kind == 10 || kind == 12 || kind == 14 {
            Err(DecodeError::NotSupported)
        } else {
            Err(DecodeError::UnknownPacketType)
        }
    }
}

/// The view of a packet that may be absent.
pub open spec fn packet_view(packet: Option<PacketType>) -> Option<PacketView> {
    match packet {
        Some(p) => Some(p@),
        None => None,
    }
}

/// The packet that begins at index `i` of `buf`, the reply that it calls
/// for, and the index of the first byte after it.
pub open spec fn parse_exchange(buf: Seq<u8>, i: nat) -> Result<
    (PacketView, Option<PacketView>, nat),
    DecodeError,
> {
    if i > buf.len() {
        Err(DecodeError::Truncated)
    } else {
        match parse_packet(buf.skip(i as int)) {
            Ok((packet, consumed)) => Ok((packet, packet.reply(), i + consumed)),
            Err(e) => Err(e),
        }
    }
}

/// What `create_replay_packet_with_received_packet` returned, with the
/// packets as their views.
pub open spec fn exchange_view(
    r: Result<(PacketType, Option<PacketType>, usize), DecodeError>,
) -> Result<(PacketView, Option<PacketView>, nat), DecodeError> {
    match r {
        Ok((packet, reply, next)) => Ok((packet@, packet_view(reply), next as nat)),
        Err(e) => Err(e),
    }
}

/// A packet that was read takes up at least two bytes and no more than the
/// buffer holds.
pub proof fn lemma_parse_packet_consumes(buf: Seq<u8>)
    ensures
        parse_packet(buf) matches Ok((_, consumed)) ==> 2 <= consumed <= buf.len(),
{
    reveal_with_fuel(remaining_length::decode_length_from, 5);
}

/// Reading a packet looks at no byte beyond the packet: the same bytes
/// followed by anything else read as the same packet.
pub proof fn lemma_parse_packet_ignores_what_follows(buf: Seq<u8>, other: Seq<u8>)
    ensures
        parse_packet(buf) matches Ok((packet, consumed)) ==> parse_packet(
            buf.take(consumed as int) + other,
        ) == Ok::<(PacketView, nat), DecodeError>((packet, consumed)),
{
    reveal_with_fuel(remaining_length::decode_length_from, 5);
    if let Ok((packet, consumed)) = parse_packet(buf) {
        lemma_parse_packet_consumes(buf);
        let cut = buf.take(consumed as int) + other;
        assert(forall|i: int| 0 <= i < consumed ==> cut[i] == buf[i]);
        if let PacketView::PUBLISH(p) = packet {
            let (length, start) = remaining_length::decode_length(buf)->Ok_0;
            assert(cut[0] == buf[0]);
            assert(remaining_length::decode_length(cut) == Ok::<(nat, nat), DecodeError>(
                (length, start),
            ));
            assert(cut.subrange(start as int, (start + length) as int) =~= buf.subrange(
                start as int,
                (start + length) as int,
            ));
        }
    }
}

impl PacketView {
    /// Whether a client both writes and reads packets of this type.
    pub open spec fn goes_both_ways(self) -> bool {
        self is PUBLISH || self is PUBACK || self is PUBREC || self is PUBREL || self is PUBCOMP
    }
}

/// Reading back a packet that was written gives the same packet and the
/// number of bytes written, whatever follows them in the buffer. This holds
/// for every packet type that a client both writes and reads.
pub proof fn lemma_packet_round_trip(packet: PacketView, rest: Seq<u8>)
    requires
        packet.goes_both_ways(),
        packet.encoding() is Ok,
    ensures
        parse_packet(packet.encoding()->Ok_0 + rest) == Ok::<(PacketView, nat), DecodeError>(
            (packet, packet.encoding()->Ok_0.len()),
        ),
{
    let wire = packet.encoding()->Ok_0;
    let buf = wire + rest;
    match packet {
        PacketView::PUBLISH(p) => {
            publish::lemma_publish_round_trip(p, rest);
            remaining_length::lemma_frame_round_trip(p.first_byte(), p.body(), rest);
        },
        PacketView::PUBACK(p) => {
            ack::lemma_ack_round_trip(PUBACK_HEADER, p.packet_id, rest);
            assert(buf[0] == PUBACK_HEADER);
        },
        PacketView::PUBREC(p) => {
            ack::lemma_ack_round_trip(PUBREC_HEADER, p.packet_id, rest);
            assert(buf[0] == PUBREC_HEADER);
        },
        PacketView::PUBREL(p) => {
            ack::lemma_ack_round_trip(PUBREL_HEADER, p.packet_id, rest);
            assert(buf[0] == PUBREL_HEADER);
        },
        PacketView::PUBCOMP(p) => {
            ack::lemma_ack_round_trip(PUBCOMP_HEADER, p.packet_id, rest);
            assert(buf[0] == PUBCOMP_HEADER);
        },
        _ => {},
    }
}

impl PacketType {
    /// The packet as bytes.
    pub fn serialize(&self) -> (r: Result<Vec<u8>, EncodeError>)
        ensures
            encoded(r) == self@.encoding(),
    {
        match self {
            PacketType::CONNECT(packet) => packet.serialize(),
            PacketType::CONNACK(packet) => packet.serialize(),
            PacketType::PUBLISH(packet) => packet.serialize(),
            PacketType::PUBACK(packet) => packet.serialize(),
            PacketType::PUBREC(packet) => packet.serialize(),
            PacketType::PUBREL(packet) => packet.serialize(),
            PacketType::PUBCOMP(packet) => packet.serialize(),
            PacketType::SUBSCRIBE(packet) => packet.serialize(),
            PacketType::SUBACK(packet) => packet.serialize(),
            PacketType::UNSUBSCRIBE(packet) => packet.serialize(),
            PacketType::UNSUBACK(packet) => packet.serialize(),
            PacketType::PINGREQ(packet) => packet.serialize(),
            PacketType::PINGRESP(packet) => packet.serialize(),
            PacketType::DISCONNECT(packet) => packet.serialize(),
        }
    }

    /// Reads the packet that `buf` begins with, whatever its type. Gives the
    /// packet and the number of bytes that it takes up.
    pub fn deserialize(buf: &[u8]) -> (r: Result<(Self, usize), DecodeError>)
        ensures
            decoded(r) == parse_packet(buf@),
            r matches Ok((_, consumed)) ==> 2 <= consumed <= buf@.len(),
    {
        proof {
            lemma_parse_packet_consumes(buf@);
        }
        if buf.len() == 0 {
            return Err(DecodeError::Truncated);
        }
        let first: u8 = buf[0];
        assert(first & 0b1111_0000 == (first / 16) * 16) by (bit_vector);
        match first & 0b1111_0000 {
            0b0001_0000 => {
                let (packet, size) = ConnectPacket::deserialize(buf)?;
                Ok((PacketType::CONNECT(packet), size))
            },
            0b0010_0000 => {
                let (packet, size) = ConnackPacket::deserialize(buf)?;
                Ok((PacketType::CONNACK(packet), size))
            },
            0b0011_0000 => {
                let (packet, size) = PublishPacket::deserialize(buf)?;
                Ok((PacketType::PUBLISH(packet), size))
            },
            0b0100_0000 => {
                let (packet, size) = PubackPacket::deserialize(buf)?;
                Ok((PacketType::PUBACK(packet), size))
            },
            0b0101_0000 => {
                let (packet, size) = PubrecPacket::deserialize(buf)?;
                Ok((PacketType::PUBREC(packet), size))
            },
            0b0110_0000 => {
                let (packet, size) = PubrelPacket::deserialize(buf)?;
                Ok((PacketType::PUBREL(packet), size))
            },
            0b0111_0000 => {
                let (packet, size) = PubcompPacket::deserialize(buf)?;
                Ok((PacketType::PUBCOMP(packet), size))
            },
            0b1000_0000 => {
                let (packet, size) = SubscribePacket::deserialize(buf)?;
                Ok((PacketType::SUBSCRIBE(packet), size))
            },
            0b1001_0000 => {
                let (packet, size) = SubackPacket::deserialize(buf)?;
                Ok((PacketType::SUBACK(packet), size))
            },
            0b1010_0000 => {
                let (packet, size) = UnsubscribePacket::deserialize(buf)?;
                Ok((PacketType::UNSUBSCRIBE(packet), size))
            },
            0b1011_0000 => {
                let (packet, size) = UnsubackPacket::deserialize(buf)?;
                Ok((PacketType::UNSUBACK(packet), size))
            },
            0b1100_0000 => {
                let (packet, size) = PingreqPacket::deserialize(buf)?;
                Ok((PacketType::PINGREQ(packet), size))
            },
            0b1101_0000 => {
                let (packet, size) = PingrespPacket::deserialize(buf)?;
                Ok((PacketType::PINGRESP(packet), size))
            },
            0b1110_0000 => {
                let (packet, size) = DisconnectPacket::deserialize(buf)?;
                Ok((PacketType::DISCONNECT(packet), size))
            },
            _ => Err(DecodeError::UnknownPacketType),
        }
    }

    /// The packet that the receiver of this one owes its sender at once, if
    /// any.
    pub fn reply(&self) -> (reply: Option<PacketType>)
        ensures
            packet_view(reply) == self@.reply(),
    {
        match self {
            PacketType::PUBLISH(publish_packet) => match (
                publish_packet.qos,
                publish_packet.packet_id,
            ) {
                (QoS::QoS1, Some(packet_id)) => Some(
                    PacketType::PUBACK(PubackPacket { packet_id }),
                ),
                (QoS::QoS2, Some(packet_id)) => Some(
                    PacketType::PUBREC(PubrecPacket { packet_id }),
                ),
                _ => None,
            },
            PacketType::PUBREC(pubrec_packet) => Some(
                PacketType::PUBREL(PubrelPacket { packet_id: pubrec_packet.packet_id }),
            ),
            PacketType::PUBREL(pubrel_packet) => Some(
                PacketType::PUBCOMP(PubcompPacket { packet_id: pubrel_packet.packet_id }),
            ),
            _ => None,
        }
    }
}

/// Draws a 16-bit number at random.
///
/// This is `thread_rng().gen::<u16>()` of the `rand` crate, which samples
/// the thread-local generator. Any value may come back and nothing relates
/// one call to the next, so the contract promises nothing.
#[verifier::external_body]
pub(crate) fn random_u16() -> u16 {
    rand::Rng::gen(&mut rand::thread_rng())
}

/// A fresh packet identifier, drawn at random. Keeping it apart from the
/// identifiers still in flight is up to the caller.
pub fn generate_packet_id() -> u16 {
    random_u16()
}

/// Reads the packet that begins at index `i` of `buf` and works out the
/// reply that it calls for. Gives the packet, the reply if one is owed, and
/// the index of the first byte after the packet.
pub fn create_replay_packet_with_received_packet(buf: &[u8], i: usize) -> (r: Result<
    (PacketType, Option<PacketType>, usize),
    DecodeError,
>)
    ensures
        exchange_view(r) == parse_exchange(buf@, i as nat),
        r matches Ok((_, _, next)) ==> i + 2 <= next <= buf@.len(),
{
    if i > buf.len() {
        return Err(DecodeError::Truncated);
    }
    let (packet, size) = PacketType::deserialize(slice_subrange(buf, i, buf.len()))?;
    let replied_packet = packet.reply();
    Ok((packet, replied_packet, i + size))
}

} // verus!

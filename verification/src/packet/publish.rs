//! PUBLISH: a message on a topic, in either direction.

use vstd::prelude::*;
use vstd::slice::*;
use vstd::utf8::*;
use crate::error::{DecodeError, EncodeError};
use crate::packet::codec::{
    be16, be16_value, bit, decoded, encoded, fits_field, flag, push_text, push_u16, read_u16,
    string_from_utf8, text_field, MAX_FIELD_LENGTH,
};
use crate::packet::generate_packet_id;
use crate::packet::remaining_length::{
    decode_length, extract_remaining_length, frame, insert_remaining_length,
    lemma_frame_round_trip, MAX_REMAINING_LENGTH,
};
use crate::qos::QoS;

verus! {

/// A PUBLISH packet.
#[derive(Clone, Debug, PartialEq)]
pub struct PublishPacket {
    pub dup: bool,
    pub qos: QoS,
    pub retain: bool,
    pub topic_name: String,
    pub packet_id: Option<u16>,
    pub payload: Vec<u8>,
}

/// What a PUBLISH packet holds, as mathematical values.
pub struct PublishView {
    pub dup: bool,
    pub qos: QoS,
    pub retain: bool,
    pub topic_name: Seq<char>,
    pub packet_id: Option<u16>,
    pub payload: Seq<u8>,
}

impl View for PublishPacket {
    type V = PublishView;

    open spec fn view(&self) -> PublishView {
        PublishView {
            dup: self.dup,
            qos: self.qos,
            retain: self.retain,
            topic_name: self.topic_name@,
            packet_id: self.packet_id,
            payload: self.payload@,
        }
    }
}

impl PublishView {
    /// A packet identifier is there exactly when the quality of service
    /// asks for an acknowledgment.
    pub open spec fn id_matches_qos(self) -> bool {
        self.packet_id is Some <==> self.qos != QoS::QoS0
    }

    /// The rules of the data model: the identifier goes with the quality of
    /// service, and the topic name fits a text field.
    pub open spec fn wf(self) -> bool {
        self.id_matches_qos() && fits_field(self.topic_name)
    }

    /// The first byte: type 3, then the duplicate flag, the quality of
    /// service and the retain flag.
    pub open spec fn first_byte(self) -> u8 {
        (48 + 8 * bit(self.dup) + 2 * self.qos.code() + bit(self.retain)) as u8
    }

    /// Everything that the remaining length counts: the topic name, the
    /// packet identifier if there is one, and the payload.
    pub open spec fn body(self) -> Seq<u8> {
        text_field(self.topic_name) + (match self.packet_id {
            Some(id) => be16(id),
            None => Seq::<u8>::empty(),
        }) + self.payload
    }

    /// The packet on the wire.
    pub open spec fn wire(self) -> Seq<u8> {
        frame(self.first_byte(), self.body())
    }

    /// What serializing gives: the wire form, or the reason why there is none.
    pub open spec fn encoding(self) -> Result<Seq<u8>, EncodeError> {
        if !self.id_matches_qos() {
            Err(EncodeError::InvalidPacket)
        } else if !fits_field(self.topic_name) {
            Err(EncodeError::FieldTooLong)
        } else if self.body().len() > MAX_REMAINING_LENGTH {
            Err(EncodeError::PacketTooLarge)
        } else {
            Ok(self.wire())
        }
    }
}

/// Reads the part of a PUBLISH packet that the remaining length counts.
/// `first` is the packet's first byte and `qos` the quality of service in it.
pub open spec fn parse_publish_body(first: u8, qos: QoS, body: Seq<u8>) -> Result<
    PublishView,
    DecodeError,
> {
    if body.len() < 2 {
        Err(DecodeError::WrongRemainingLength)
    } else {
        let topic_len = be16_value(body[0], body[1]) as int;
        let id_len: int = if qos == QoS::QoS0 {
            0
        } else {
            2
        };
        let topic = body.subrange(2, 2 + topic_len);
        if 2 + topic_len + id_len > body.len() {
            Err(DecodeError::WrongRemainingLength)
        } else if !valid_utf8(topic) {
            Err(DecodeError::InvalidUtf8)
        } else {
            Ok(
                PublishView {
                    dup: (first / 8) % 2 == 1,
                    qos,
                    retain: first % 2 == 1,
                    topic_name: decode_utf8(topic),
                    packet_id: if qos == QoS::QoS0 {
                        None
                    } else {
                        Some(be16_value(body[2 + topic_len], body[3 + topic_len]))
                    },
                    payload: body.subrange(2 + topic_len + id_len, body.len() as int),
                },
            )
        }
    }
}

/// Reads the PUBLISH packet that `buf` begins with. Gives the packet and the
/// number of bytes that it takes up.
pub open spec fn parse_publish(buf: Seq<u8>) -> Result<(PublishView, nat), DecodeError> {
    if buf.len() == 0 {
        Err(DecodeError::Truncated)
    } else if buf[0] / 16 != 3 {
        Err(DecodeError::MalformedHeader)
    } else {
        match QoS::from_code((buf[0] / 2) % 4) {
            Err(e) => Err(e),
            Ok(qos) => match decode_length(buf) {
                Err(e) => Err(e),
                Ok((length, start)) => if start + length > buf.len() {
                    Err(DecodeError::Truncated)
                } else {
                    match parse_publish_body(
                        buf[0],
                        qos,
                        buf.subrange(start as int, (start + length) as int),
                    ) {
                        Err(e) => Err(e),
                        Ok(packet) => Ok((packet, start + length)),
                    }
                },
            },
        }
    }
}

impl PublishPacket {
    /// Builds a PUBLISH packet. A packet of quality of service 1 or 2 that is
    /// given no identifier gets a random one.
    pub fn new(
        dup: bool,
        qos: QoS,
        retain: bool,
        topic_name: String,
        packet_id: Option<u16>,
        payload: Vec<u8>,
    ) -> (packet: Self)
        ensures
            packet@.dup == dup,
            packet@.qos == qos,
            packet@.retain == retain,
            packet@.topic_name == topic_name@,
            packet@.payload == payload@,
            packet_id is Some || qos == QoS::QoS0 ==> packet@.packet_id == packet_id,
            packet_id is None && qos != QoS::QoS0 ==> packet@.packet_id is Some,
    {
        let packet_id = if packet_id.is_none() && qos != QoS::QoS0 {
            Some(generate_packet_id())
        } else {
            packet_id
        };
        PublishPacket { dup, qos, retain, topic_name, packet_id, payload }
    }

    /// Whether the packet keeps the rules of the data model.
    pub fn is_well_formed(&self) -> (ok: bool)
        ensures
            ok == self@.wf(),
    {
        self.packet_id.is_some() == (self.qos != QoS::QoS0)
            && self.topic_name.as_str().as_bytes().len() <= MAX_FIELD_LENGTH
    }

    /// The payload as text, where it is valid UTF-8.
    pub fn payload_text(&self) -> (text: Option<String>)
        ensures
            text is Some <==> valid_utf8(self@.payload),
            text matches Some(t) ==> t@ == decode_utf8(self@.payload),
    {
        string_from_utf8(slice_to_vec(self.payload.as_slice()))
    }

    /// The packet as bytes.
    pub fn serialize(&self) -> (r: Result<Vec<u8>, EncodeError>)
        ensures
            encoded(r) == self@.encoding(),
    {
        if self.packet_id.is_some() != (self.qos != QoS::QoS0) {
            return Err(EncodeError::InvalidPacket);
        }
        let dup: u8 = flag(self.dup);
        let qos: u8 = self.qos.to_u8();
        let retain: u8 = flag(self.retain);
        assert(0b0011_0000u8 | dup << 3 | qos << 1 | retain == 48 + 8 * dup + 2 * qos + retain)
            by (bit_vector)
            requires
                dup <= 1,
                qos <= 2,
                retain <= 1,
        ;
        let mut bytes: Vec<u8> = Vec::new();
        bytes.push(0b0011_0000u8 | dup << 3 | qos << 1 | retain);
        push_text(&mut bytes, self.topic_name.as_str())?;
        if let Some(packet_id) = self.packet_id {
            push_u16(&mut bytes, packet_id);
        }
        bytes.extend_from_slice(self.payload.as_slice());
        assert(bytes@ =~= seq![self@.first_byte()] + self@.body());
        assert(bytes@.subrange(1, bytes@.len() as int) =~= self@.body());
        insert_remaining_length(&mut bytes)?;
        Ok(bytes)
    }

    /// Reads the PUBLISH packet that `buf` begins with. Gives the packet and
    /// the number of bytes that it takes up; nothing beyond them is looked at.
    pub fn deserialize(buf: &[u8]) -> (r: Result<(Self, usize), DecodeError>)
        ensures
            decoded(r) == parse_publish(buf@),
    {
        if buf.len() == 0 {
            return Err(DecodeError::Truncated);
        }
        let first: u8 = buf[0];
        assert((first & 0b1111_0000 == 0b0011_0000) == (first / 16 == 3)) by (bit_vector);
        assert((first & 0b0000_1000 == 0b0000_1000) == ((first / 8) % 2 == 1)) by (bit_vector);
        assert((first & 0b0000_0110) >> 1 == (first / 2) % 4) by (bit_vector);
        assert((first & 0b0000_0001 == 0b0000_0001) == (first % 2 == 1)) by (bit_vector);
        if first & 0b1111_0000 != 0b0011_0000 {
            return Err(DecodeError::MalformedHeader);
        }
        let dup = first & 0b0000_1000 == 0b0000_1000;
        let qos = QoS::try_from((first & 0b0000_0110) >> 1)?;
        let retain = first & 0b0000_0001 == 0b0000_0001;

        let (remaining_length, start) = extract_remaining_length(buf)?;
        if remaining_length > buf.len() - start {
            return Err(DecodeError::Truncated);
        }
        let end: usize = start + remaining_length;
        let ghost body = buf@.subrange(start as int, end as int);
        if remaining_length < 2 {
            return Err(DecodeError::WrongRemainingLength);
        }
        let topic_len: usize = read_u16(buf, start) as usize;
        let id_len: usize = if qos != QoS::QoS0 {
            2
        } else {
            0
        };
        if 2 + topic_len + id_len > remaining_length {
            return Err(DecodeError::WrongRemainingLength);
        }
        let mut i: usize = start + 2;
        let topic_bytes = slice_to_vec(slice_subrange(buf, i, i + topic_len));
        assert(topic_bytes@ =~= body.subrange(2, 2 + topic_len));
        let topic_name = match string_from_utf8(topic_bytes) {
            Some(text) => text,
            None => {
                return Err(DecodeError::InvalidUtf8);
            },
        };
        i = i + topic_len;
        let packet_id = if qos != QoS::QoS0 {
            let id = read_u16(buf, i);
            i = i + 2;
            Some(id)
        } else {
            None
        };
        let payload = slice_to_vec(slice_subrange(buf, i, end));
        assert(payload@ =~= body.subrange(2 + topic_len + id_len, body.len() as int));
        Ok((PublishPacket { dup, qos, retain, topic_name, packet_id, payload }, end))
    }
}

/// Reading back a PUBLISH packet that was written gives the same packet and
/// the number of bytes written, whatever follows them in the buffer.
pub proof fn lemma_publish_round_trip(packet: PublishView, rest: Seq<u8>)
    requires
        packet.encoding() is Ok,
    ensures
        parse_publish(packet.wire() + rest) == Ok::<(PublishView, nat), DecodeError>(
            (packet, packet.wire().len()),
        ),
{
    broadcast use {encode_utf8_valid_utf8, encode_utf8_decode_utf8};

    let first = packet.first_byte();
    let body = packet.body();
    let buf = packet.wire() + rest;
    lemma_frame_round_trip(first, body, rest);
    let raw = encode_utf8(packet.topic_name);
    let topic_len = raw.len() as int;
    assert(body[0] == be16(raw.len() as u16)[0]);
    assert(body[1] == be16(raw.len() as u16)[1]);
    assert(body.subrange(2, 2 + topic_len) =~= raw);
    let parsed = parse_publish_body(first, packet.qos, body);
    match packet.packet_id {
        Some(id) => {
            assert(body[2 + topic_len] == be16(id)[0]);
            assert(body[3 + topic_len] == be16(id)[1]);
            assert(body.subrange(2 + topic_len + 2, body.len() as int) =~= packet.payload);
        },
        None => {
            assert(body.subrange(2 + topic_len, body.len() as int) =~= packet.payload);
        },
    }
    assert(parsed is Ok);
    assert(parsed->Ok_0.topic_name == packet.topic_name);
    assert(parsed->Ok_0.payload == packet.payload);
    assert(parsed->Ok_0 == packet);
}

} // verus!

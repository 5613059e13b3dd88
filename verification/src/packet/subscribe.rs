//! SUBSCRIBE, from client to broker, and the broker's answer, SUBACK.

use vstd::prelude::*;
use crate::error::{DecodeError, EncodeError};
use crate::packet::codec::{
    be16, be16_value, decoded, encoded, fits_field, push_text, push_u16, read_u16, text_field,
};
use crate::packet::remaining_length::{frame, insert_remaining_length, MAX_REMAINING_LENGTH};
use crate::qos::QoS;

verus! {

/// First byte of a SUBSCRIBE packet; the low bits are fixed by the protocol.
pub const SUBSCRIBE_HEADER: u8 = 0x82;

/// First byte of a SUBACK packet.
pub const SUBACK_HEADER: u8 = 0x90;

/// The SUBACK result that reports a failed subscription.
pub const SUBACK_FAILURE: u8 = 128;

/// A SUBSCRIBE packet: topic filters, each with the quality of service asked
/// for, in the order in which they go on the wire.
#[derive(Clone, Debug, PartialEq)]
pub struct SubscribePacket {
    pub packet_id: u16,
    pub topic_filters: Vec<(String, QoS)>,
}

/// What a SUBSCRIBE packet holds, as mathematical values.
pub struct SubscribeView {
    pub packet_id: u16,
    pub topic_filters: Seq<(Seq<char>, QoS)>,
}

impl View for SubscribePacket {
    type V = SubscribeView;

    open spec fn view(&self) -> SubscribeView {
        SubscribeView {
            packet_id: self.packet_id,
            topic_filters: self.topic_filters@.map_values(|f: (String, QoS)| (f.0@, f.1)),
        }
    }
}

/// The topic filters on the wire, one after the other: each as a text field
/// followed by the byte of its quality of service.
pub open spec fn subscriptions_wire(filters: Seq<(Seq<char>, QoS)>) -> Seq<u8>
    decreases filters.len(),
{
    if filters.len() == 0 {
        Seq::<u8>::empty()
    } else {
        subscriptions_wire(filters.drop_last()) + text_field(filters.last().0) + seq![
            filters.last().1.code(),
        ]
    }
}

impl SubscribeView {
    /// Whether every topic filter fits a text field.
    pub open spec fn fields_fit(self) -> bool {
        forall|i: int| 0 <= i < self.topic_filters.len() ==> fits_field(self.topic_filters[i].0)
    }

    /// Everything that the remaining length counts: the packet identifier
    /// and the topic filters.
    pub open spec fn body(self) -> Seq<u8> {
        be16(self.packet_id) + subscriptions_wire(self.topic_filters)
    }

    /// The packet on the wire.
    pub open spec fn wire(self) -> Seq<u8> {
        frame(SUBSCRIBE_HEADER, self.body())
    }

    /// What serializing gives: the wire form, or the reason why there is none.
    pub open spec fn encoding(self) -> Result<Seq<u8>, EncodeError> {
        if !self.fields_fit() {
            Err(EncodeError::FieldTooLong)
        } else if self.body().len() > MAX_REMAINING_LENGTH {
            Err(EncodeError::PacketTooLarge)
        } else {
            Ok(self.wire())
        }
    }
}

impl SubscribePacket {
    /// The packet as bytes.
    pub fn serialize(&self) -> (r: Result<Vec<u8>, EncodeError>)
        ensures
            encoded(r) == self@.encoding(),
    {
        let mut bytes: Vec<u8> = Vec::new();

        // Fixed header
        bytes.push(SUBSCRIBE_HEADER);

        // Variable header
        push_u16(&mut bytes, self.packet_id);

        // Payload
        let ghost filters = self@.topic_filters;
        let mut i: usize = 0;
        while i < self.topic_filters.len()
            invariant
                i <= self.topic_filters.len(),
                filters == self@.topic_filters,
                filters.len() == self.topic_filters.len(),
                forall|j: int| 0 <= j < i ==> fits_field(filters[j].0),
                bytes@ == seq![SUBSCRIBE_HEADER] + be16(self.packet_id) + subscriptions_wire(
                    filters.take(i as int),
                ),
            decreases self.topic_filters.len() - i,
        {
            let ghost before = bytes@;
            let filter = &self.topic_filters[i];
            assert(filters[i as int] == (filter.0@, filter.1));
            push_text(&mut bytes, filter.0.as_str())?;
            bytes.push(filter.1.to_u8());
            assert(filters.take(i + 1).drop_last() =~= filters.take(i as int));
            assert(bytes@ =~= seq![SUBSCRIBE_HEADER] + be16(self.packet_id) + subscriptions_wire(
                filters.take(i + 1),
            ));
            i += 1;
        }
        assert(filters.take(i as int) =~= filters);
        assert(bytes@.subrange(1, bytes@.len() as int) =~= self@.body());
        insert_remaining_length(&mut bytes)?;
        Ok(bytes)
    }

    /// A client never receives SUBSCRIBE: there is nothing to read.
    pub fn deserialize(buf: &[u8]) -> (r: Result<(Self, usize), DecodeError>)
        ensures
            decoded(r) == Err::<(SubscribeView, nat), DecodeError>(DecodeError::NotSupported),
    {
        Err(DecodeError::NotSupported)
    }
}

/// A SUBACK packet: the quality of service that the broker granted, or the
/// news that the subscription failed.
#[derive(Clone, Copy, Debug, PartialEq, Eq, Structural)]
pub struct SubackPacket {
    pub packet_id: u16,
    /// The granted quality of service; absent when the subscription failed.
    pub maximum_qos: Option<QoS>,
    pub failure: bool,
}

impl View for SubackPacket {
    type V = SubackPacket;

    open spec fn view(&self) -> SubackPacket {
        *self
    }
}

/// Reads the SUBACK packet that `buf` begins with. Gives the packet and the
/// five bytes that it takes up.
pub open spec fn parse_suback(buf: Seq<u8>) -> Result<(SubackPacket, nat), DecodeError> {
    if buf.len() == 0 {
        Err(DecodeError::Truncated)
    } else if buf[0] != SUBACK_HEADER {
        Err(DecodeError::MalformedHeader)
    } else if buf.len() < 2 {
        Err(DecodeError::Truncated)
    } else if buf[1] != 3 {
        Err(DecodeError::WrongRemainingLength)
    } else if buf.len() < 5 {
        Err(DecodeError::Truncated)
    } else if buf[4] == SUBACK_FAILURE {
        Ok(
            (
                SubackPacket {
                    packet_id: be16_value(buf[2], buf[3]),
                    maximum_qos: None,
                    failure: true,
                },
                5,
            ),
        )
    } else {
        match QoS::from_code(buf[4]) {
            Ok(qos) => Ok(
                (
                    SubackPacket {
                        packet_id: be16_value(buf[2], buf[3]),
                        maximum_qos: Some(qos),
                        failure: false,
                    },
                    5,
                ),
            ),
            Err(_) => Err(DecodeError::InvalidReturnCode),
        }
    }
}

impl SubackPacket {
    /// A client never sends SUBACK: there is nothing to write.
    pub fn serialize(&self) -> (r: Result<Vec<u8>, EncodeError>)
        ensures
            encoded(r) == Err::<Seq<u8>, EncodeError>(EncodeError::NotSupported),
    {
        Err(EncodeError::NotSupported)
    }

    /// Reads the SUBACK packet that `buf` begins with. Gives the packet and
    /// the five bytes that it takes up.
    pub fn deserialize(buf: &[u8]) -> (r: Result<(Self, usize), DecodeError>)
        ensures
            decoded(r) == parse_suback(buf@),
    {
        if buf.len() == 0 {
            return Err(DecodeError::Truncated);
        }
        if buf[0] != SUBACK_HEADER {
            return Err(DecodeError::MalformedHeader);
        }
        if buf.len() < 2 {
            return Err(DecodeError::Truncated);
        }
        if buf[1] != 3 {
            return Err(DecodeError::WrongRemainingLength);
        }
        if buf.len() < 5 {
            return Err(DecodeError::Truncated);
        }
        let packet_id = read_u16(buf, 2);
        let (maximum_qos, failure) = match buf[4] {
            0 => (Some(QoS::QoS0), false),
            1 => (Some(QoS::QoS1), false),
            2 => (Some(QoS::QoS2), false),
            128 => (None, true),
            _ => {
                return Err(DecodeError::InvalidReturnCode);
            },
        };
        Ok((SubackPacket { packet_id, maximum_qos, failure }, 5))
    }
}

} // verus!

//! UNSUBSCRIBE, from client to broker.

use vstd::prelude::*;
use crate::error::{DecodeError, EncodeError};
use crate::packet::codec::{be16, decoded, encoded, fits_field, push_text, push_u16, text_field};
use crate::packet::remaining_length::{frame, insert_remaining_length, MAX_REMAINING_LENGTH};

verus! {

/// First byte of an UNSUBSCRIBE packet; the low bits are fixed by the protocol.
pub const UNSUBSCRIBE_HEADER: u8 = 0xa2;

/// An UNSUBSCRIBE packet: the topic filters to drop, in the order in which
/// they go on the wire.
#[derive(Clone, Debug, PartialEq)]
pub struct UnsubscribePacket {
    pub packet_id: u16,
    pub topic_filters: Vec<String>,
}

/// What an UNSUBSCRIBE packet holds, as mathematical values.
pub struct UnsubscribeView {
    pub packet_id: u16,
    pub topic_filters: Seq<Seq<char>>,
}

impl View for UnsubscribePacket {
    type V = UnsubscribeView;

    open spec fn view(&self) -> UnsubscribeView {
        UnsubscribeView {
            packet_id: self.packet_id,
            topic_filters: self.topic_filters@.map_values(|f: String| f@),
        }
    }
}

/// The topic filters on the wire, one text field after the other.
pub open spec fn filters_wire(filters: Seq<Seq<char>>) -> Seq<u8>
    decreases filters.len(),
{
    if filters.len() == 0 {
        Seq::<u8>::empty()
    } else {
        filters_wire(filters.drop_last()) + text_field(filters.last())
    }
}

impl UnsubscribeView {
    /// Whether every topic filter fits a text field.
    pub open spec fn fields_fit(self) -> bool {
        forall|i: int| 0 <= i < self.topic_filters.len() ==> fits_field(self.topic_filters[i])
    }

    /// Everything that the remaining length counts: the packet identifier
    /// and the topic filters.
    pub open spec fn body(self) -> Seq<u8> {
        be16(self.packet_id) + filters_wire(self.topic_filters)
    }

    /// The packet on the wire.
    pub open spec fn wire(self) -> Seq<u8> {
        frame(UNSUBSCRIBE_HEADER, self.body())
    }

    /// What serializing gives: the wire form, or the reason why there is none.
    pub open spec fn encoding(self) -> Result<Seq<u8>, EncodeError> {
        if !self.fields_fit() {
            Err(EncodeError::FieldTooLong)
        } else if self.body().len() > MAX_REMAINING_LENGTH {
            Err(EncodeError::PacketTooLarge)
        } else {
            Ok(self.wire())
        }
    }
}

impl UnsubscribePacket {
    /// The packet as bytes.
    pub fn serialize(&self) -> (r: Result<Vec<u8>, EncodeError>)
        ensures
            encoded(r) == self@.encoding(),
    {
        let mut bytes: Vec<u8> = Vec::new();

        // Fixed header
        bytes.push(UNSUBSCRIBE_HEADER);

        // Variable header
        push_u16(&mut bytes, self.packet_id);

        // Payload
        let ghost filters = self@.topic_filters;
        let mut i: usize = 0;
        while i < self.topic_filters.len()
            invariant
                i <= self.topic_filters.len(),
                filters == self@.topic_filters,
                filters.len() == self.topic_filters.len(),
                forall|j: int| 0 <= j < i ==> fits_field(filters[j]),
                bytes@ == seq![UNSUBSCRIBE_HEADER] + be16(self.packet_id) + filters_wire(
                    filters.take(i as int),
                ),
            decreases self.topic_filters.len() - i,
        {
            let topic = &self.topic_filters[i];
            assert(filters[i as int] == topic@);
            push_text(&mut bytes, topic.as_str())?;
            assert(filters.take(i + 1).drop_last() =~= filters.take(i as int));
            assert(bytes@ =~= seq![UNSUBSCRIBE_HEADER] + be16(self.packet_id) + filters_wire(
                filters.take(i + 1),
            ));
            i += 1;
        }
        assert(filters.take(i as int) =~= filters);
        assert(bytes@.subrange(1, bytes@.len() as int) =~= self@.body());
        insert_remaining_length(&mut bytes)?;
        Ok(bytes)
    }

    /// A client never receives UNSUBSCRIBE: there is nothing to read.
    pub fn deserialize(buf: &[u8]) -> (r: Result<(Self, usize), DecodeError>)
        ensures
            decoded(r) == Err::<(UnsubscribeView, nat), DecodeError>(DecodeError::NotSupported),
    {
        Err(DecodeError::NotSupported)
    }
}

} // verus!

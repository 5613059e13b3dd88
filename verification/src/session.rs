//! The decisions of a session: whether the broker's answers allow it to go
//! on, and how far the sending of a publication has come.
//!
//! Nothing here reads or writes a connection. The caller sends what these
//! functions hand out and feeds them what arrives.

use vstd::prelude::*;
use crate::delivery::{
    lemma_receive_keeps_wf, lemma_table_insert, Inconsistency, PendingAcks, PendingAcksView,
    Reaction, ReactionView,
};
use crate::error::EncodeError;
use crate::packet::{
    ConnackPacket, PacketType, PacketView, PubackPacket, PubcompPacket, PublishPacket,
    PublishView, PubrecPacket, PubrelPacket, SubackPacket, SubscribePacket,
};
use crate::qos::QoS;

verus! {

/// Why a session cannot go on.
#[derive(Clone, Copy, Debug, PartialEq, Eq)]
pub enum SessionError {
    /// The broker refused the connection, for the reason given if it gave one.
    ConnectionRefused { reason: Option<&'static str> },
    /// The SUBACK that arrived answers another SUBSCRIBE than the one sent.
    SubackMismatch { sent: u16, received: u16 },
}

/// Lets a session go on only if the broker accepted the connection.
pub fn validate_connack(connack_packet: &ConnackPacket) -> (r: Result<(), SessionError>)
    ensures
        connack_packet.accepted ==> r is Ok,
        !connack_packet.accepted ==> r == Err::<(), SessionError>(
            SessionError::ConnectionRefused { reason: connack_packet.refused_reason },
        ),
{
    if connack_packet.accepted {
        Ok(())
    } else {
        Err(SessionError::ConnectionRefused { reason: connack_packet.refused_reason })
    }
}

/// Lets a subscription stand only if the SUBACK carries the identifier of
/// the SUBSCRIBE that was sent.
pub fn validate_suback(subscribe_packet: &SubscribePacket, suback_packet: &SubackPacket) -> (r:
    Result<(), SessionError>)
    ensures
        subscribe_packet.packet_id == suback_packet.packet_id ==> r is Ok,
        subscribe_packet.packet_id != suback_packet.packet_id ==> r == Err::<(), SessionError>(
            SessionError::SubackMismatch {
                sent: subscribe_packet.packet_id,
                received: suback_packet.packet_id,
            },
        ),
{
    if subscribe_packet.packet_id != suback_packet.packet_id {
        Err(
            SessionError::SubackMismatch {
                sent: subscribe_packet.packet_id,
                received: suback_packet.packet_id,
            },
        )
    } else {
        Ok(())
    }
}

/// How far the sending of one publication has come.
#[derive(Clone, Copy, Debug, PartialEq, Eq, Structural)]
pub enum Handshake {
    /// A PUBLISH of quality of service 1 is out; its PUBACK is awaited.
    AwaitingPuback(u16),
    /// A PUBLISH of quality of service 2 is out; its PUBREC is awaited.
    AwaitingPubrec(u16),
    /// The PUBREL is out; its PUBCOMP is awaited.
    AwaitingPubcomp(u16),
    /// Every acknowledgment that the quality of service asks for has come.
    Complete,
    /// The awaited acknowledgment came and did not fit the tables.
    Failed(Inconsistency),
}

impl Handshake {
    /// Whether `packet` is the acknowledgment that this state waits for.
    pub open spec fn answered_by(self, packet: PacketView) -> bool {
        match (self, packet) {
            (Handshake::AwaitingPuback(id), PacketView::PUBACK(p)) => p.packet_id == id,
            (Handshake::AwaitingPubrec(id), PacketView::PUBREC(p)) => p.packet_id == id,
            (Handshake::AwaitingPubcomp(id), PacketView::PUBCOMP(p)) => p.packet_id == id,
            _ => false,
        }
    }

    /// The state after `packet` has arrived and the tables reported
    /// `report` for it. A packet other than the awaited acknowledgment
    /// changes nothing. The awaited one moves the exchange on by a step,
    /// or fails it if it did not fit the tables.
    pub open spec fn after(self, packet: PacketView, report: Option<Inconsistency>) -> Handshake {
        if !self.answered_by(packet) {
            self
        } else {
            match report {
                Some(what) => Handshake::Failed(what),
                None => match self {
                    Handshake::AwaitingPubrec(id) => Handshake::AwaitingPubcomp(id),
                    _ => Handshake::Complete,
                },
            }
        }
    }

    /// Whether the exchange has ended, well or badly.
    pub open spec fn is_over(self) -> bool {
        self is Complete || self is Failed
    }

    /// Whether the exchange has ended, well or badly.
    pub fn over(&self) -> (b: bool)
        ensures
            b == self.is_over(),
    {
        match self {
            Handshake::Complete => true,
            Handshake::Failed(_) => true,
            _ => false,
        }
    }

    fn answered(&self, packet: &PacketType) -> (b: bool)
        ensures
            b == self.answered_by(packet@),
    {
        match (self, packet) {
            (Handshake::AwaitingPuback(id), PacketType::PUBACK(p)) => p.packet_id == *id,
            (Handshake::AwaitingPubrec(id), PacketType::PUBREC(p)) => p.packet_id == *id,
            (Handshake::AwaitingPubcomp(id), PacketType::PUBCOMP(p)) => p.packet_id == *id,
            _ => false,
        }
    }
}

impl PendingAcksView {
    /// The tables once a PUBLISH packet has gone out, and the state in
    /// which its sender then is. Quality of service 0 is done at once and
    /// leaves no trace. Quality of service 1 notes the packet as awaiting
    /// its PUBACK, quality of service 2 as awaiting its PUBREC.
    pub open spec fn start_publish(self, p: PublishView) -> (PendingAcksView, Handshake) {
        match (p.qos, p.packet_id) {
            (QoS::QoS1, Some(id)) => (
                PendingAcksView { awaiting_puback: self.awaiting_puback.insert(id, p), ..self },
                Handshake::AwaitingPuback(id),
            ),
            (QoS::QoS2, Some(id)) => (
                PendingAcksView { awaiting_pubrec: self.awaiting_pubrec.insert(id, p), ..self },
                Handshake::AwaitingPubrec(id),
            ),
            _ => (self, Handshake::Complete),
        }
    }

    /// The tables, the state of the sender and what is owed after `packet`
    /// has arrived while the sender was in state `handshake`. The tables
    /// treat the packet as they treat any that arrives.
    pub open spec fn advance(self, handshake: Handshake, packet: PacketView) -> (
        PendingAcksView,
        Handshake,
        ReactionView,
    ) {
        let (tables, reaction) = self.receive(packet);
        (tables, handshake.after(packet, reaction.report), reaction)
    }
}

impl PendingAcks {
    /// Begins the sending of a publication: gives the bytes to send and
    /// notes the packet in the table of its quality of service. A packet
    /// that has no wire form leaves the tables as they were.
    pub fn start_publish(&mut self, publish_packet: PublishPacket) -> (r: Result<
        (Vec<u8>, Handshake),
        EncodeError,
    >)
        ensures
            match r {
                Ok((bytes, handshake)) => {
                    &&& publish_packet@.encoding() == Ok::<Seq<u8>, EncodeError>(bytes@)
                    &&& (final(self)@, handshake) == old(self)@.start_publish(publish_packet@)
                },
                Err(e) => {
                    &&& publish_packet@.encoding() == Err::<Seq<u8>, EncodeError>(e)
                    &&& final(self)@ == old(self)@
                },
            },
    {
        let bytes = publish_packet.serialize()?;
        let handshake = match (publish_packet.qos, publish_packet.packet_id) {
            (QoS::QoS1, Some(packet_id)) => {
                proof {
                    lemma_table_insert(self.awaiting_puback@, packet_id, publish_packet);
                }
                self.awaiting_puback.insert(packet_id, publish_packet);
                Handshake::AwaitingPuback(packet_id)
            },
            (QoS::QoS2, Some(packet_id)) => {
                proof {
                    lemma_table_insert(self.awaiting_pubrec@, packet_id, publish_packet);
                }
                self.awaiting_pubrec.insert(packet_id, publish_packet);
                Handshake::AwaitingPubrec(packet_id)
            },
            _ => Handshake::Complete,
        };
        Ok((bytes, handshake))
    }

    /// Takes in a packet that has arrived while a publication was being
    /// sent: brings the tables up to date, says what is owed for the packet
    /// and how far the sending has come.
    pub fn advance(&mut self, handshake: Handshake, packet: PacketType) -> (r: (
        Handshake,
        Reaction,
    ))
        ensures
            (final(self)@, r.0, r.1@) == old(self)@.advance(handshake, packet@),
    {
        let answered = handshake.answered(&packet);
        let reaction = self.receive(packet);
        let next = if !answered {
            handshake
        } else {
            match reaction.report {
                Some(what) => Handshake::Failed(what),
                None => match handshake {
                    Handshake::AwaitingPubrec(packet_id) => Handshake::AwaitingPubcomp(packet_id),
                    _ => Handshake::Complete,
                },
            }
        };
        (next, reaction)
    }
}

/// Tables in which every entry sits under its own identifier stay so while
/// a publication is sent and its acknowledgments come in.
pub proof fn lemma_handshake_keeps_wf(
    tables: PendingAcksView,
    p: PublishView,
    handshake: Handshake,
    packet: PacketView,
)
    requires
        tables.wf(),
    ensures
        tables.start_publish(p).0.wf(),
        tables.advance(handshake, packet).0.wf(),
{
    lemma_receive_keeps_wf(tables, packet);
}

/// A publication of quality of service 0 is done as soon as it is sent, and
/// the tables do not change.
pub proof fn lemma_qos0_needs_no_handshake(tables: PendingAcksView, p: PublishView)
    requires
        p.qos == QoS::QoS0,
    ensures
        tables.start_publish(p) == (tables, Handshake::Complete),
{
}

/// A publication of quality of service 1 with identifier `id` is complete
/// once its PUBACK has arrived, and the identifier then awaits no PUBACK
/// any more.
pub proof fn lemma_qos1_handshake_completes(tables: PendingAcksView, p: PublishView, id: u16)
    requires
        p.qos == QoS::QoS1,
        p.packet_id == Some(id),
    ensures
        ({
            let (sent, waiting) = tables.start_publish(p);
            let (acked, done, reaction) = sent.advance(
                waiting,
                PacketView::PUBACK(PubackPacket { packet_id: id }),
            );
            &&& waiting == Handshake::AwaitingPuback(id)
            &&& sent.awaiting_puback.contains_key(id)
            &&& done == Handshake::Complete
            &&& !acked.awaiting_puback.contains_key(id)
            &&& reaction == ReactionView::nothing()
        }),
{
}

/// A publication of quality of service 2 with identifier `id` is complete
/// once its PUBREC and then its PUBCOMP have arrived. The PUBREC is
/// answered with a PUBREL, and in the end the identifier awaits neither a
/// PUBREC nor a PUBCOMP.
pub proof fn lemma_qos2_handshake_completes(tables: PendingAcksView, p: PublishView, id: u16)
    requires
        p.qos == QoS::QoS2,
        p.packet_id == Some(id),
    ensures
        ({
            let (sent, waiting) = tables.start_publish(p);
            let (received, released, first) = sent.advance(
                waiting,
                PacketView::PUBREC(PubrecPacket { packet_id: id }),
            );
            let (completed, done, second) = received.advance(
                released,
                PacketView::PUBCOMP(PubcompPacket { packet_id: id }),
            );
            &&& waiting == Handshake::AwaitingPubrec(id)
            &&& sent.awaiting_pubrec.contains_key(id)
            &&& released == Handshake::AwaitingPubcomp(id)
            &&& first.reply == Some(PacketView::PUBREL(PubrelPacket { packet_id: id }))
            &&& first.report is None
            &&& !received.awaiting_pubrec.contains_key(id)
            &&& received.awaiting_pubcomp.contains_key(id)
            &&& done == Handshake::Complete
            &&& second == ReactionView::nothing()
            &&& !completed.awaiting_pubrec.contains_key(id)
            &&& !completed.awaiting_pubcomp.contains_key(id)
        }),
{
}

/// While a publication is being sent, a packet other than the awaited
/// acknowledgment leaves the state of the sender as it was.
pub proof fn lemma_other_packets_do_not_advance(
    tables: PendingAcksView,
    handshake: Handshake,
    packet: PacketView,
)
    requires
        !handshake.answered_by(packet),
    ensures
        tables.advance(handshake, packet).1 == handshake,
{
}

/// A publication that was received with quality of service 2 is handed to
/// the application when its PUBREL arrives, not before, and is then held no
/// longer.
pub proof fn lemma_qos2_delivery_waits_for_release(tables: PendingAcksView, p: PublishView, id: u16)
    requires
        p.qos == QoS::QoS2,
        p.packet_id == Some(id),
    ensures
        ({
            let (held, first) = tables.receive(PacketView::PUBLISH(p));
            let (released, second) = held.receive(
                PacketView::PUBREL(PubrelPacket { packet_id: id }),
            );
            &&& first.delivery is None
            &&& first.reply == Some(PacketView::PUBREC(PubrecPacket { packet_id: id }))
            &&& held.awaiting_pubrel.contains_key(id)
            &&& second.delivery == Some(p)
            &&& second.reply == Some(PacketView::PUBCOMP(PubcompPacket { packet_id: id }))
            &&& second.report is None
            &&& !released.awaiting_pubrel.contains_key(id)
            &&& released.awaiting_pubcomp.contains_key(id)
        }),
{
}

} // verus!

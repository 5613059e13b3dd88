//! The delivery state machine: what a client owes for each packet that
//! arrives, and what it has to remember until an acknowledgment comes.

use std::collections::HashMap;
use vstd::prelude::*;
use vstd::slice::*;
use crate::error::DecodeError;
use crate::packet::{
    lemma_parse_packet_consumes, packet_view, parse_packet, PacketType, PacketView, PubackPacket,
    PubcompPacket, PublishPacket, PublishView, PubrecPacket, PubrelPacket,
};
use crate::qos::QoS;

verus! {

broadcast use vstd::std_specs::hash::group_hash_axioms;

/// A packet that does not fit what the tables hold. None of these stops the
/// session: the tables stay sound and the next packet is handled as usual.
#[derive(Clone, Copy, Debug, PartialEq, Eq, Structural)]
pub enum Inconsistency {
    /// A PUBACK for an identifier that awaits none.
    UnexpectedPuback(u16),
    /// A PUBREC for an identifier that awaits none.
    UnexpectedPubrec(u16),
    /// A PUBREL for an identifier whose message is not held. The broker has
    /// dropped its copy by now, so the message is lost.
    MissingHeldMessage(u16),
    /// A PUBCOMP for an identifier that awaits none.
    UnexpectedPubcomp(u16),
    /// A packet that no broker sends: one of a type that only clients send,
    /// a second CONNACK, or a PUBLISH that asks for an acknowledgment and
    /// has no identifier.
    UnexpectedPacket,
}

/// What has to happen after a packet has arrived.
#[derive(Clone, Debug, PartialEq)]
pub struct Reaction {
    /// The packet to send back, if one is owed.
    pub reply: Option<PacketType>,
    /// The publication to hand to the application now, if there is one.
    pub delivery: Option<PublishPacket>,
    /// What to report to the operator, if the packet did not fit the tables.
    pub report: Option<Inconsistency>,
}

/// A reaction, as mathematical values.
pub struct ReactionView {
    pub reply: Option<PacketView>,
    pub delivery: Option<PublishView>,
    pub report: Option<Inconsistency>,
}

impl View for Reaction {
    type V = ReactionView;

    open spec fn view(&self) -> ReactionView {
        ReactionView {
            reply: packet_view(self.reply),
            delivery: match self.delivery {
                Some(p) => Some(p@),
                None => None,
            },
            report: self.report,
        }
    }
}

/// What became of a buffer of packets that had queued up.
#[derive(Clone, Debug, PartialEq)]
pub struct Drained {
    /// What is owed for each packet that was read, in the order of arrival.
    pub reactions: Vec<Reaction>,
    /// The index of the first byte that was not taken in.
    pub next: usize,
    /// Why reading stopped before the end of the buffer, if it did.
    pub error: Option<DecodeError>,
}

/// The outcome of draining a buffer, as mathematical values.
pub struct DrainedView {
    pub reactions: Seq<ReactionView>,
    pub next: nat,
    pub error: Option<DecodeError>,
}

impl View for Drained {
    type V = DrainedView;

    open spec fn view(&self) -> DrainedView {
        DrainedView {
            reactions: self.reactions@.map_values(|r: Reaction| r@),
            next: self.next as nat,
            error: self.error,
        }
    }
}

/// The four tables of packets that wait for an acknowledgment, each keyed
/// by packet identifier.
#[derive(Debug)]
pub struct PendingAcks {
    /// PUBLISH packets of quality of service 1 that were sent and not yet
    /// acknowledged by a PUBACK.
    pub awaiting_puback: HashMap<u16, PublishPacket>,
    /// PUBLISH packets of quality of service 2 that were sent and not yet
    /// acknowledged by a PUBREC.
    pub awaiting_pubrec: HashMap<u16, PublishPacket>,
    /// PUBLISH packets of quality of service 2 that were received and
    /// answered with a PUBREC, held back until the sender releases them.
    pub awaiting_pubrel: HashMap<u16, PublishPacket>,
    /// PUBREL packets that were sent, or answered, and not yet completed.
    pub awaiting_pubcomp: HashMap<u16, PubrelPacket>,
}

/// The four tables, as maps.
pub struct PendingAcksView {
    pub awaiting_puback: Map<u16, PublishView>,
    pub awaiting_pubrec: Map<u16, PublishView>,
    pub awaiting_pubrel: Map<u16, PublishView>,
    pub awaiting_pubcomp: Map<u16, PubrelPacket>,
}

/// A table of PUBLISH packets, as a map to their views.
pub open spec fn publish_table(table: Map<u16, PublishPacket>) -> Map<u16, PublishView> {
    table.map_values(|p: PublishPacket| p@)
}

impl View for PendingAcks {
    type V = PendingAcksView;

    open spec fn view(&self) -> PendingAcksView {
        PendingAcksView {
            awaiting_puback: publish_table(self.awaiting_puback@),
            awaiting_pubrec: publish_table(self.awaiting_pubrec@),
            awaiting_pubrel: publish_table(self.awaiting_pubrel@),
            awaiting_pubcomp: self.awaiting_pubcomp@,
        }
    }
}

impl ReactionView {
    /// The reaction that asks for nothing.
    pub open spec fn nothing() -> ReactionView {
        ReactionView { reply: None, delivery: None, report: None }
    }

    /// The reaction that only reports `what`.
    pub open spec fn only_report(what: Inconsistency) -> ReactionView {
        ReactionView { reply: None, delivery: None, report: Some(what) }
    }
}

impl PendingAcksView {
    /// Four empty tables.
    pub open spec fn empty() -> PendingAcksView {
        PendingAcksView {
            awaiting_puback: Map::empty(),
            awaiting_pubrec: Map::empty(),
            awaiting_pubrel: Map::empty(),
            awaiting_pubcomp: Map::empty(),
        }
    }

    /// Every entry sits under the identifier of its own packet, and every
    /// PUBLISH packet sits in a table of its own quality of service.
    pub open spec fn wf(self) -> bool {
        &&& forall|id: u16| #[trigger]
            self.awaiting_puback.contains_key(id) ==> self.awaiting_puback[id].packet_id == Some(id)
                && self.awaiting_puback[id].qos == QoS::QoS1
        &&& forall|id: u16| #[trigger]
            self.awaiting_pubrec.contains_key(id) ==> self.awaiting_pubrec[id].packet_id == Some(id)
                && self.awaiting_pubrec[id].qos == QoS::QoS2
        &&& forall|id: u16| #[trigger]
            self.awaiting_pubrel.contains_key(id) ==> self.awaiting_pubrel[id].packet_id == Some(id)
                && self.awaiting_pubrel[id].qos == QoS::QoS2
        &&& forall|id: u16| #[trigger]
            self.awaiting_pubcomp.contains_key(id) ==> self.awaiting_pubcomp[id].packet_id == id
    }

    /// The tables after a PUBLISH packet has arrived, and what is owed for it.
    ///
    /// Quality of service 0 and 1 hand the message over at once, the latter
    /// with a PUBACK. Quality of service 2 holds the message back under its
    /// identifier and answers with a PUBREC.
    pub open spec fn receive_publish(self, p: PublishView) -> (PendingAcksView, ReactionView) {
        match (p.qos, p.packet_id) {
            (QoS::QoS0, _) => (
                self,
                ReactionView { reply: None, delivery: Some(p), report: None },
            ),
            (QoS::QoS1, Some(_)) => (
                self,
                ReactionView {
                    reply: PacketView::PUBLISH(p).reply(),
                    delivery: Some(p),
                    report: None,
                },
            ),
            (QoS::QoS2, Some(id)) => (
                PendingAcksView { awaiting_pubrel: self.awaiting_pubrel.insert(id, p), ..self },
                ReactionView {
                    reply: PacketView::PUBLISH(p).reply(),
                    delivery: None,
                    report: None,
                },
            ),
            (_, None) => (self, ReactionView::only_report(Inconsistency::UnexpectedPacket)),
        }
    }

    /// The tables after a PUBACK for `id` has arrived, and what is owed for it.
    pub open spec fn receive_puback(self, id: u16) -> (PendingAcksView, ReactionView) {
        if self.awaiting_puback.contains_key(id) {
            (
                PendingAcksView { awaiting_puback: self.awaiting_puback.remove(id), ..self },
                ReactionView::nothing(),
            )
        } else {
            (self, ReactionView::only_report(Inconsistency::UnexpectedPuback(id)))
        }
    }

    /// The tables after a PUBREC for `id` has arrived, and what is owed for
    /// it: the identifier leaves the table of those that await a PUBREC, a
    /// PUBREL goes out and is noted as awaiting its PUBCOMP.
    pub open spec fn receive_pubrec(self, id: u16) -> (PendingAcksView, ReactionView) {
        (
            PendingAcksView {
                awaiting_pubrec: self.awaiting_pubrec.remove(id),
                awaiting_pubcomp: self.awaiting_pubcomp.insert(id, PubrelPacket { packet_id: id }),
                ..self
            },
            ReactionView {
                reply: Some(PacketView::PUBREL(PubrelPacket { packet_id: id })),
                delivery: None,
                report: if self.awaiting_pubrec.contains_key(id) {
                    None
                } else {
                    Some(Inconsistency::UnexpectedPubrec(id))
                },
            },
        )
    }

    /// The tables after a PUBREL for `id` has arrived, and what is owed for
    /// it: the message held under the identifier is handed over now, a
    /// PUBCOMP goes out either way, and the PUBREL is noted.
    pub open spec fn receive_pubrel(self, id: u16) -> (PendingAcksView, ReactionView) {
        (
            PendingAcksView {
                awaiting_pubrel: self.awaiting_pubrel.remove(id),
                awaiting_pubcomp: self.awaiting_pubcomp.insert(id, PubrelPacket { packet_id: id }),
                ..self
            },
            ReactionView {
                reply: Some(PacketView::PUBCOMP(PubcompPacket { packet_id: id })),
                delivery: if self.awaiting_pubrel.contains_key(id) {
                    Some(self.awaiting_pubrel[id])
                } else {
                    None
                },
                report: if self.awaiting_pubrel.contains_key(id) {
                    None
                } else {
                    Some(Inconsistency::MissingHeldMessage(id))
                },
            },
        )
    }

    /// The tables after a PUBCOMP for `id` has arrived, and what is owed for it.
    pub open spec fn receive_pubcomp(self, id: u16) -> (PendingAcksView, ReactionView) {
        if self.awaiting_pubcomp.contains_key(id) {
            (
                PendingAcksView { awaiting_pubcomp: self.awaiting_pubcomp.remove(id), ..self },
                ReactionView::nothing(),
            )
        } else {
            (self, ReactionView::only_report(Inconsistency::UnexpectedPubcomp(id)))
        }
    }

    /// The tables after `packet` has arrived, and what is owed for it.
    pub open spec fn receive(self, packet: PacketView) -> (PendingAcksView, ReactionView) {
        match packet {
            PacketView::PUBLISH(p) => self.receive_publish(p),
            PacketView::PUBACK(p) => self.receive_puback(p.packet_id),
            PacketView::PUBREC(p) => self.receive_pubrec(p.packet_id),
            PacketView::PUBREL(p) => self.receive_pubrel(p.packet_id),
            PacketView::PUBCOMP(p) => self.receive_pubcomp(p.packet_id),
            PacketView::SUBACK(_) => (self, ReactionView::nothing()),
            PacketView::UNSUBACK(_) => (self, ReactionView::nothing()),
            PacketView::PINGRESP(_) => (self, ReactionView::nothing()),
            _ => (self, ReactionView::only_report(Inconsistency::UnexpectedPacket)),
        }
    }
}

impl PendingAcksView {
    /// The tables after the packets that `buf` holds from index `at` on
    /// have arrived one after the other, and what is owed for them. Reading
    /// stops at the end of the buffer, or at the first packet that cannot be
    /// read; the packets before that one count all the same. (A packet takes
    /// up at least two bytes: the case of one that takes none is there only
    /// to show that the reading ends.)
    pub open spec fn drain(self, buf: Seq<u8>, at: nat) -> (PendingAcksView, DrainedView)
        decreases buf.len() - at,
    {
        if at >= buf.len() {
            (self, DrainedView { reactions: Seq::empty(), next: at, error: None })
        } else {
            match parse_packet(buf.skip(at as int)) {
                Err(e) => (
                    self,
                    DrainedView { reactions: Seq::empty(), next: at, error: Some(e) },
                ),
                Ok((packet, consumed)) => {
                    if consumed == 0 {
                        (self, DrainedView { reactions: Seq::empty(), next: at, error: None })
                    } else {
                        let (tables, reaction) = self.receive(packet);
                        let (end, rest) = tables.drain(buf, at + consumed);
                        (
                            end,
                            DrainedView { reactions: seq![reaction] + rest.reactions, ..rest },
                        )
                    }
                },
            }
        }
    }
}

/// Whatever arrives, the reply that the tables ask for is the one that the
/// packet itself calls for, unless the packet is one that no broker sends.
pub proof fn lemma_reply_is_the_packets_own(tables: PendingAcksView, packet: PacketView)
    ensures
        tables.receive(packet).1.report != Some(Inconsistency::UnexpectedPacket)
            ==> tables.receive(packet).1.reply == packet.reply(),
        tables.receive(packet).1.report == Some(Inconsistency::UnexpectedPacket)
            ==> tables.receive(packet).1.reply is None,
{
}

/// Tables in which every entry sits under its own identifier stay so,
/// whatever arrives.
pub proof fn lemma_receive_keeps_wf(tables: PendingAcksView, packet: PacketView)
    requires
        tables.wf(),
    ensures
        tables.receive(packet).0.wf(),
{
}

/// Tables in which every entry sits under its own identifier stay so after
/// a whole buffer of packets has been taken in.
pub proof fn lemma_drain_keeps_wf(tables: PendingAcksView, buf: Seq<u8>, at: nat)
    requires
        tables.wf(),
    ensures
        tables.drain(buf, at).0.wf(),
    decreases buf.len() - at,
{
    if at < buf.len() {
        if let Ok((packet, consumed)) = parse_packet(buf.skip(at as int)) {
            if consumed != 0 {
                lemma_receive_keeps_wf(tables, packet);
                lemma_drain_keeps_wf(tables.receive(packet).0, buf, at + consumed);
            }
        }
    }
}

/// An acknowledgment for an identifier that its table does not hold leaves
/// that table as it was and is reported. For PUBACK and PUBCOMP nothing else
/// happens either: no table changes, nothing is sent and nothing delivered.
pub proof fn lemma_absent_identifier_is_reported(tables: PendingAcksView, id: u16)
    ensures
        !tables.awaiting_puback.contains_key(id) ==> tables.receive(
            PacketView::PUBACK(PubackPacket { packet_id: id }),
        ) == (tables, ReactionView::only_report(Inconsistency::UnexpectedPuback(id))),
        !tables.awaiting_pubcomp.contains_key(id) ==> tables.receive(
            PacketView::PUBCOMP(PubcompPacket { packet_id: id }),
        ) == (tables, ReactionView::only_report(Inconsistency::UnexpectedPubcomp(id))),
        !tables.awaiting_pubrec.contains_key(id) ==> ({
            let (after, reaction) = tables.receive(
                PacketView::PUBREC(PubrecPacket { packet_id: id }),
            );
            &&& after.awaiting_pubrec == tables.awaiting_pubrec
            &&& after.awaiting_puback == tables.awaiting_puback
            &&& after.awaiting_pubrel == tables.awaiting_pubrel
            &&& reaction.report == Some(Inconsistency::UnexpectedPubrec(id))
        }),
        !tables.awaiting_pubrel.contains_key(id) ==> ({
            let (after, reaction) = tables.receive(
                PacketView::PUBREL(PubrelPacket { packet_id: id }),
            );
            &&& after.awaiting_pubrel == tables.awaiting_pubrel
            &&& after.awaiting_puback == tables.awaiting_puback
            &&& after.awaiting_pubrec == tables.awaiting_pubrec
            &&& reaction.delivery is None
            &&& reaction.report == Some(Inconsistency::MissingHeldMessage(id))
        }),
{
    assert(!tables.awaiting_pubrec.contains_key(id) ==> tables.awaiting_pubrec.remove(id)
        =~= tables.awaiting_pubrec);
    assert(!tables.awaiting_pubrel.contains_key(id) ==> tables.awaiting_pubrel.remove(id)
        =~= tables.awaiting_pubrel);
}

pub(crate) proof fn lemma_table_insert(table: Map<u16, PublishPacket>, id: u16, p: PublishPacket)
    ensures
        publish_table(table.insert(id, p)) == publish_table(table).insert(id, p@),
{
    assert(publish_table(table.insert(id, p)) =~= publish_table(table).insert(id, p@));
}

proof fn lemma_table_remove(table: Map<u16, PublishPacket>, id: u16)
    ensures
        publish_table(table.remove(id)) == publish_table(table).remove(id),
        publish_table(table).contains_key(id) == table.contains_key(id),
        table.contains_key(id) ==> publish_table(table)[id] == table[id]@,
{
    assert(publish_table(table.remove(id)) =~= publish_table(table).remove(id));
}

impl PendingAcks {
    /// Four empty tables.
    pub fn new() -> (tables: Self)
        ensures
            tables@ == PendingAcksView::empty(),
            tables@.wf(),
    {
        let tables = PendingAcks {
            awaiting_puback: HashMap::new(),
            awaiting_pubrec: HashMap::new(),
            awaiting_pubrel: HashMap::new(),
            awaiting_pubcomp: HashMap::new(),
        };
        assert(tables@.awaiting_puback =~= Map::empty());
        assert(tables@.awaiting_pubrec =~= Map::empty());
        assert(tables@.awaiting_pubrel =~= Map::empty());
        tables
    }

    fn receive_publish(&mut self, publish_packet: PublishPacket) -> (reaction: Reaction)
        ensures
            (final(self)@, reaction@) == old(self)@.receive_publish(publish_packet@),
    {
        match (publish_packet.qos, publish_packet.packet_id) {
            (QoS::QoS0, _) => Reaction {
                reply: None,
                delivery: Some(publish_packet),
                report: None,
            },
            (QoS::QoS1, Some(packet_id)) => Reaction {
                reply: Some(PacketType::PUBACK(PubackPacket { packet_id })),
                delivery: Some(publish_packet),
                report: None,
            },
            (QoS::QoS2, Some(packet_id)) => {
                proof {
                    lemma_table_insert(self.awaiting_pubrel@, packet_id, publish_packet);
                }
                self.awaiting_pubrel.insert(packet_id, publish_packet);
                Reaction {
                    reply: Some(PacketType::PUBREC(PubrecPacket { packet_id })),
                    delivery: None,
                    report: None,
                }
            },
            (_, None) => Reaction {
                reply: None,
                delivery: None,
                report: Some(Inconsistency::UnexpectedPacket),
            },
        }
    }

    fn receive_puback(&mut self, packet_id: u16) -> (reaction: Reaction)
        ensures
            (final(self)@, reaction@) == old(self)@.receive_puback(packet_id),
    {
        proof {
            lemma_table_remove(self.awaiting_puback@, packet_id);
        }
        match self.awaiting_puback.remove(&packet_id) {
            Some(_) => Reaction { reply: None, delivery: None, report: None },
            None => {
                assert(self.awaiting_puback@ =~= old(self).awaiting_puback@);
                Reaction {
                    reply: None,
                    delivery: None,
                    report: Some(Inconsistency::UnexpectedPuback(packet_id)),
                }
            },
        }
    }

    fn receive_pubrec(&mut self, packet_id: u16) -> (reaction: Reaction)
        ensures
            (final(self)@, reaction@) == old(self)@.receive_pubrec(packet_id),
    {
        proof {
            lemma_table_remove(self.awaiting_pubrec@, packet_id);
        }
        let report = match self.awaiting_pubrec.remove(&packet_id) {
            Some(_) => None,
            None => Some(Inconsistency::UnexpectedPubrec(packet_id)),
        };
        let pubrel_packet = PubrelPacket { packet_id };
        self.awaiting_pubcomp.insert(packet_id, pubrel_packet);
        Reaction { reply: Some(PacketType::PUBREL(pubrel_packet)), delivery: None, report }
    }

    fn receive_pubrel(&mut self, packet_id: u16) -> (reaction: Reaction)
        ensures
            (final(self)@, reaction@) == old(self)@.receive_pubrel(packet_id),
    {
        proof {
            lemma_table_remove(self.awaiting_pubrel@, packet_id);
        }
        let delivery = self.awaiting_pubrel.remove(&packet_id);
        let report = if delivery.is_some() {
            None
        } else {
            Some(Inconsistency::MissingHeldMessage(packet_id))
        };
        self.awaiting_pubcomp.insert(packet_id, PubrelPacket { packet_id });
        Reaction {
            reply: Some(PacketType::PUBCOMP(PubcompPacket { packet_id })),
            delivery,
            report,
        }
    }

    fn receive_pubcomp(&mut self, packet_id: u16) -> (reaction: Reaction)
        ensures
            (final(self)@, reaction@) == old(self)@.receive_pubcomp(packet_id),
    {
        match self.awaiting_pubcomp.remove(&packet_id) {
            Some(_) => Reaction { reply: None, delivery: None, report: None },
            None => {
                assert(self.awaiting_pubcomp@ =~= old(self).awaiting_pubcomp@);
                Reaction {
                    reply: None,
                    delivery: None,
                    report: Some(Inconsistency::UnexpectedPubcomp(packet_id)),
                }
            },
        }
    }

    /// Takes in the packets that `buf` holds from index `start` on, one
    /// after the other. Stops at the end of the buffer or at the first
    /// packet that cannot be read, and says what is owed for each packet
    /// read before that.
    pub fn drain(&mut self, buf: &[u8], start: usize) -> (drained: Drained)
        ensures
            (final(self)@, drained@) == old(self)@.drain(buf@, start as nat),
    {
        let mut reactions: Vec<Reaction> = Vec::new();
        let mut i: usize = start;
        let ghost view_of = |r: Reaction| r@;
        while i < buf.len()
            invariant
                start <= i,
                view_of == (|r: Reaction| r@),
                ({
                    let (end, rest) = self@.drain(buf@, i as nat);
                    old(self)@.drain(buf@, start as nat) == (
                        end,
                        DrainedView {
                            reactions: reactions@.map_values(view_of) + rest.reactions,
                            ..rest
                        },
                    )
                }),
            decreases buf.len() - i,
        {
            proof {
                lemma_parse_packet_consumes(buf@.skip(i as int));
            }
            let ghost seen = reactions@.map_values(view_of);
            match PacketType::deserialize(slice_subrange(buf, i, buf.len())) {
                Ok((packet, size)) => {
                    let reaction = self.receive(packet);
                    reactions.push(reaction);
                    i = i + size;
                    proof {
                        let rest = self@.drain(buf@, i as nat).1;
                        assert(reactions@.map_values(view_of) =~= seen.push(reaction@));
                        assert(seen.push(reaction@) + rest.reactions =~= seen + (seq![reaction@]
                            + rest.reactions));
                    }
                },
                Err(e) => {
                    assert(seen + Seq::<ReactionView>::empty() =~= seen);
                    return Drained { reactions, next: i, error: Some(e) };
                },
            }
        }
        assert(reactions@.map_values(view_of) + Seq::<ReactionView>::empty()
            =~= reactions@.map_values(view_of));
        Drained { reactions, next: i, error: None }
    }

    /// Takes in a packet that has arrived: brings the tables up to date and
    /// says what is owed for the packet.
    pub fn receive(&mut self, packet: PacketType) -> (reaction: Reaction)
        ensures
            (final(self)@, reaction@) == old(self)@.receive(packet@),
    {
        match packet {
            PacketType::PUBLISH(publish_packet) => self.receive_publish(publish_packet),
            PacketType::PUBACK(puback_packet) => self.receive_puback(puback_packet.packet_id),
            PacketType::PUBREC(pubrec_packet) => self.receive_pubrec(pubrec_packet.packet_id),
            PacketType::PUBREL(pubrel_packet) => self.receive_pubrel(pubrel_packet.packet_id),
            PacketType::PUBCOMP(pubcomp_packet) => self.receive_pubcomp(pubcomp_packet.packet_id),
            PacketType::SUBACK(_) | PacketType::UNSUBACK(_) | PacketType::PINGRESP(_) => Reaction {
                reply: None,
                delivery: None,
                report: None,
            },
            _ => Reaction {
                reply: None,
                delivery: None,
                report: Some(Inconsistency::UnexpectedPacket),
            },
        }
    }
}

} // verus!

use mqtt_client::delivery::{Inconsistency, PendingAcks, Reaction};
use mqtt_client::error::EncodeError;
use mqtt_client::packet::{
    ConnackPacket, ConnectPacket, PacketType, PingrespPacket, PubackPacket, PubcompPacket,
    PublishPacket, PubrecPacket, PubrelPacket, SubackPacket, SubscribePacket,
};
use mqtt_client::qos::QoS;
use mqtt_client::session::{validate_connack, validate_suback, Handshake, SessionError};

fn publish(qos: QoS, packet_id: Option<u16>) -> PublishPacket {
    PublishPacket {
        dup: false,
        qos,
        retain: false,
        topic_name: "a/b".to_string(),
        packet_id,
        payload: b"hello".to_vec(),
    }
}

fn nothing() -> Reaction {
    Reaction {
        reply: None,
        delivery: None,
        report: None,
    }
}

#[test]
fn connect_then_connack() {
    let connect = ConnectPacket::new(
        None,
        None,
        Some("hello".to_string()),
        60,
        true,
        false,
        None,
        None,
    );
    assert_eq!(connect.serialize().unwrap()[9], 0b0000_0010);
    let (connack, size) = ConnackPacket::deserialize(&[0x20, 0x02, 0x00, 0x00]).unwrap();
    assert_eq!(size, 4);
    assert_eq!(
        connack,
        ConnackPacket {
            sp: false,
            accepted: true,
            refused_reason: None
        }
    );
    assert_eq!(validate_connack(&connack), Ok(()));
}

#[test]
fn refused_connection_stops_the_session() {
    let (connack, _) = ConnackPacket::deserialize(&[0x20, 0x02, 0x00, 0x05]).unwrap();
    assert_eq!(
        validate_connack(&connack),
        Err(SessionError::ConnectionRefused {
            reason: Some("not authorized")
        })
    );
}

#[test]
fn suback_must_match_the_subscribe() {
    let subscribe = SubscribePacket {
        packet_id: 10,
        topic_filters: vec![("a".to_string(), QoS::QoS0)],
    };
    let matching = SubackPacket {
        packet_id: 10,
        maximum_qos: Some(QoS::QoS0),
        failure: false,
    };
    let other = SubackPacket {
        packet_id: 11,
        maximum_qos: Some(QoS::QoS0),
        failure: false,
    };
    assert_eq!(validate_suback(&subscribe, &matching), Ok(()));
    assert_eq!(
        validate_suback(&subscribe, &other),
        Err(SessionError::SubackMismatch {
            sent: 10,
            received: 11
        })
    );
}

#[test]
fn publish_qos0_is_done_when_sent() {
    let mut tables = PendingAcks::new();
    let (bytes, handshake) = tables.start_publish(publish(QoS::QoS0, None)).unwrap();
    assert_eq!(
        bytes,
        vec![0x30, 0x0a, 0, 3, 0x61, 0x2f, 0x62, 0x68, 0x65, 0x6c, 0x6c, 0x6f]
    );
    assert_eq!(handshake, Handshake::Complete);
    assert!(handshake.over());
    assert!(tables.awaiting_puback.is_empty());
    assert!(tables.awaiting_pubrec.is_empty());
}

#[test]
fn publish_qos1_completes_on_puback() {
    let mut tables = PendingAcks::new();
    let packet = publish(QoS::QoS1, Some(0x0101));
    let (bytes, handshake) = tables.start_publish(packet.clone()).unwrap();
    assert_eq!(bytes, packet.serialize().unwrap());
    assert_eq!(handshake, Handshake::AwaitingPuback(0x0101));
    assert!(!handshake.over());
    assert_eq!(tables.awaiting_puback.get(&0x0101), Some(&packet));

    let (handshake, reaction) =
        tables.advance(handshake, PacketType::PUBACK(PubackPacket { packet_id: 0x0101 }));
    assert_eq!(handshake, Handshake::Complete);
    assert_eq!(reaction, nothing());
    assert!(!tables.awaiting_puback.contains_key(&0x0101));
}

#[test]
fn publish_qos2_completes_on_pubcomp() {
    let mut tables = PendingAcks::new();
    let packet = publish(QoS::QoS2, Some(77));
    let (_, handshake) = tables.start_publish(packet.clone()).unwrap();
    assert_eq!(handshake, Handshake::AwaitingPubrec(77));
    assert_eq!(tables.awaiting_pubrec.get(&77), Some(&packet));

    let (handshake, reaction) =
        tables.advance(handshake, PacketType::PUBREC(PubrecPacket { packet_id: 77 }));
    assert_eq!(handshake, Handshake::AwaitingPubcomp(77));
    assert_eq!(
        reaction,
        Reaction {
            reply: Some(PacketType::PUBREL(PubrelPacket { packet_id: 77 })),
            delivery: None,
            report: None
        }
    );
    assert!(!tables.awaiting_pubrec.contains_key(&77));
    assert!(tables.awaiting_pubcomp.contains_key(&77));
    assert!(!handshake.over());

    let (handshake, reaction) =
        tables.advance(handshake, PacketType::PUBCOMP(PubcompPacket { packet_id: 77 }));
    assert_eq!(handshake, Handshake::Complete);
    assert_eq!(reaction, nothing());
    assert!(!tables.awaiting_pubcomp.contains_key(&77));
    assert!(handshake.over());
}

#[test]
fn other_packets_leave_the_handshake_waiting() {
    let mut tables = PendingAcks::new();
    let (_, handshake) = tables.start_publish(publish(QoS::QoS1, Some(5))).unwrap();

    let (handshake, reaction) =
        tables.advance(handshake, PacketType::PINGRESP(PingrespPacket {}));
    assert_eq!(handshake, Handshake::AwaitingPuback(5));
    assert_eq!(reaction, nothing());

    let (handshake, reaction) =
        tables.advance(handshake, PacketType::PUBACK(PubackPacket { packet_id: 6 }));
    assert_eq!(handshake, Handshake::AwaitingPuback(5));
    assert_eq!(reaction.report, Some(Inconsistency::UnexpectedPuback(6)));
    assert!(tables.awaiting_puback.contains_key(&5));

    let inbound = publish(QoS::QoS1, Some(5));
    let (handshake, reaction) = tables.advance(handshake, PacketType::PUBLISH(inbound.clone()));
    assert_eq!(handshake, Handshake::AwaitingPuback(5));
    assert_eq!(reaction.delivery, Some(inbound));
    assert_eq!(
        reaction.reply,
        Some(PacketType::PUBACK(PubackPacket { packet_id: 5 }))
    );
}

#[test]
fn awaited_acknowledgment_that_does_not_fit_fails_the_handshake() {
    let mut tables = PendingAcks::new();
    let (_, handshake) = tables.start_publish(publish(QoS::QoS1, Some(5))).unwrap();
    tables.awaiting_puback.clear();
    let (handshake, reaction) =
        tables.advance(handshake, PacketType::PUBACK(PubackPacket { packet_id: 5 }));
    assert_eq!(
        handshake,
        Handshake::Failed(Inconsistency::UnexpectedPuback(5))
    );
    assert_eq!(reaction.report, Some(Inconsistency::UnexpectedPuback(5)));
    assert!(handshake.over());
}

#[test]
fn a_packet_without_wire_form_starts_nothing() {
    let mut tables = PendingAcks::new();
    assert_eq!(
        tables.start_publish(publish(QoS::QoS1, None)),
        Err(EncodeError::InvalidPacket)
    );
    assert_eq!(
        tables.start_publish(publish(QoS::QoS0, Some(4))),
        Err(EncodeError::InvalidPacket)
    );
    let mut long = publish(QoS::QoS2, Some(4));
    long.topic_name = "t".repeat(65536);
    assert_eq!(tables.start_publish(long), Err(EncodeError::FieldTooLong));
    assert!(tables.awaiting_puback.is_empty());
    assert!(tables.awaiting_pubrec.is_empty());
}

#[test]
fn payload_as_text() {
    assert_eq!(
        publish(QoS::QoS0, None).payload_text(),
        Some("hello".to_string())
    );
    let mut packet = publish(QoS::QoS0, None);
    packet.payload = vec![0xe4, 0xbd, 0xa0];
    assert_eq!(packet.payload_text(), Some("你".to_string()));
    packet.payload = vec![0xff, 0xfe];
    assert_eq!(packet.payload_text(), None);
    packet.payload = vec![];
    assert_eq!(packet.payload_text(), Some(String::new()));
}

use mqtt_client::error::{DecodeError, EncodeError};
use mqtt_client::packet::PublishPacket;
use mqtt_client::qos::QoS;

#[test]
fn test_serialize_publish_packet() {
    let publish_packet = PublishPacket {
        dup: false,
        qos: QoS::QoS0,
        retain: false,
        topic_name: "a/b".to_string(),
        packet_id: None,
        payload: "hello".as_bytes().to_vec(),
    };
    let bytes = publish_packet.serialize().unwrap();
    assert_eq!(
        bytes,
        vec![
            // PUBLISH=3, DUP=0, QoS=0, RETAIN=0
            0b0011_0000,
            // remaining length
            0x0a,
            // topic name length
            0x00,
            0x03,
            // topic name (a/b)
            0x61,
            0x2f,
            0x62,
            // payload (hello)
            0x68,
            0x65,
            0x6c,
            0x6c,
            0x6f,
        ]
    );
}

fn publish(qos: QoS, packet_id: Option<u16>, topic: &str, payload: &[u8]) -> PublishPacket {
    PublishPacket {
        dup: false,
        qos,
        retain: false,
        topic_name: topic.to_string(),
        packet_id,
        payload: payload.to_vec(),
    }
}

#[test]
fn publish_qos1_carries_its_identifier() {
    let mut packet = publish(QoS::QoS1, Some(0x1234), "a/b", b"hi");
    packet.dup = true;
    packet.retain = true;
    assert_eq!(
        packet.serialize().unwrap(),
        vec![0b0011_1011, 9, 0, 3, b'a', b'/', b'b', 0x12, 0x34, b'h', b'i']
    );
}

#[test]
fn publish_qos2_first_byte() {
    let packet = publish(QoS::QoS2, Some(1), "t", b"");
    assert_eq!(
        packet.serialize().unwrap(),
        vec![0b0011_0100, 5, 0, 1, b't', 0, 1]
    );
}

#[test]
fn publish_round_trip_qos0() {
    let packet = publish(QoS::QoS0, None, "a/b", b"hello");
    let bytes = packet.serialize().unwrap();
    assert_eq!(PublishPacket::deserialize(&bytes), Ok((packet, 12)));
}

#[test]
fn publish_round_trip_with_identifier_and_flags() {
    for qos in [QoS::QoS1, QoS::QoS2] {
        for dup in [false, true] {
            for retain in [false, true] {
                let mut packet = publish(qos, Some(0xfffe), "sensors/é/1", &[0, 1, 2, 255]);
                packet.dup = dup;
                packet.retain = retain;
                let mut bytes = packet.serialize().unwrap();
                let size = bytes.len();
                bytes.extend_from_slice(&[0xe0, 0x00, 0x55]);
                assert_eq!(PublishPacket::deserialize(&bytes), Ok((packet, size)));
            }
        }
    }
}

#[test]
fn publish_round_trip_empty_payload() {
    let packet = publish(QoS::QoS1, Some(7), "a", b"");
    let bytes = packet.serialize().unwrap();
    assert_eq!(bytes, vec![0x32, 5, 0, 1, b'a', 0, 7]);
    assert_eq!(PublishPacket::deserialize(&bytes), Ok((packet, 7)));
}

#[test]
fn publish_round_trip_empty_topic() {
    let packet = publish(QoS::QoS0, None, "", b"x");
    let bytes = packet.serialize().unwrap();
    assert_eq!(bytes, vec![0x30, 3, 0, 0, b'x']);
    assert_eq!(PublishPacket::deserialize(&bytes), Ok((packet, 5)));
}

#[test]
fn publish_round_trip_longest_topic() {
    let topic = "t".repeat(65535);
    let packet = publish(QoS::QoS2, Some(9), &topic, b"payload");
    let bytes = packet.serialize().unwrap();
    assert_eq!(bytes.len(), 1 + 3 + 2 + 65535 + 2 + 7);
    assert_eq!(&bytes[4..6], &[0xff, 0xff]);
    assert_eq!(
        PublishPacket::deserialize(&bytes),
        Ok((packet, 1 + 3 + 2 + 65535 + 2 + 7))
    );
}

#[test]
fn publish_round_trip_two_byte_length() {
    let payload = vec![0xabu8; 200];
    let packet = publish(QoS::QoS0, None, "a/b", &payload);
    let bytes = packet.serialize().unwrap();
    assert_eq!(&bytes[..3], &[0x30, 0xcd, 0x01]);
    assert_eq!(PublishPacket::deserialize(&bytes), Ok((packet, 208)));
}

#[test]
fn publish_rejects_topic_that_is_too_long() {
    let packet = publish(QoS::QoS0, None, &"t".repeat(65536), b"");
    assert!(!packet.is_well_formed());
    assert_eq!(packet.serialize(), Err(EncodeError::FieldTooLong));
}

#[test]
fn publish_rejects_identifier_that_does_not_go_with_qos() {
    let packet = publish(QoS::QoS0, Some(1), "a", b"");
    assert!(!packet.is_well_formed());
    assert_eq!(packet.serialize(), Err(EncodeError::InvalidPacket));
    let packet = publish(QoS::QoS1, None, "a", b"");
    assert!(!packet.is_well_formed());
    assert_eq!(packet.serialize(), Err(EncodeError::InvalidPacket));
    let packet = publish(QoS::QoS2, None, "a", b"");
    assert_eq!(packet.serialize(), Err(EncodeError::InvalidPacket));
    assert!(publish(QoS::QoS2, Some(3), "a", b"").is_well_formed());
}

#[test]
fn publish_rejects_packet_that_is_too_large() {
    let payload = vec![0u8; 268_435_455 - 2];
    let packet = publish(QoS::QoS0, None, "a", &payload);
    assert_eq!(packet.serialize(), Err(EncodeError::PacketTooLarge));
}

#[test]
fn publish_new_draws_an_identifier_when_one_is_needed() {
    let packet = PublishPacket::new(false, QoS::QoS1, true, "a".to_string(), None, vec![1]);
    assert!(packet.packet_id.is_some());
    assert!(packet.is_well_formed());
    assert_eq!(packet.topic_name, "a");
    assert_eq!(packet.payload, vec![1]);
    assert!(packet.retain);
    assert!(!packet.dup);
    let packet = PublishPacket::new(false, QoS::QoS2, false, "a".to_string(), None, vec![]);
    assert!(packet.packet_id.is_some());
}

#[test]
fn publish_new_keeps_a_given_identifier() {
    let packet = PublishPacket::new(true, QoS::QoS2, false, "a".to_string(), Some(77), vec![]);
    assert_eq!(packet, {
        let mut expected = publish(QoS::QoS2, Some(77), "a", b"");
        expected.dup = true;
        expected
    });
}

#[test]
fn publish_new_draws_nothing_for_qos0() {
    let packet = PublishPacket::new(false, QoS::QoS0, false, "a".to_string(), None, vec![]);
    assert_eq!(packet.packet_id, None);
    let packet = PublishPacket::new(false, QoS::QoS0, false, "a".to_string(), Some(5), vec![]);
    assert_eq!(packet.packet_id, Some(5));
    assert!(!packet.is_well_formed());
}

#[test]
fn publish_decode_reads_identifier_before_payload() {
    let bytes = [0x32, 7, 0, 1, b'a', 0xab, 0xcd, b'x', b'y'];
    let (packet, size) = PublishPacket::deserialize(&bytes).unwrap();
    assert_eq!(size, 9);
    assert_eq!(packet.packet_id, Some(0xabcd));
    assert_eq!(packet.payload, b"xy".to_vec());
    assert_eq!(packet.qos, QoS::QoS1);
}

#[test]
fn publish_decode_stops_at_remaining_length() {
    let bytes = [0x30, 4, 0, 1, b'a', b'x', 0x40, 0x02, 0, 1];
    let (packet, size) = PublishPacket::deserialize(&bytes).unwrap();
    assert_eq!(size, 6);
    assert_eq!(packet.payload, b"x".to_vec());
}

#[test]
fn publish_decode_errors() {
    assert_eq!(PublishPacket::deserialize(&[]), Err(DecodeError::Truncated));
    assert_eq!(
        PublishPacket::deserialize(&[0x40, 2, 0, 1]),
        Err(DecodeError::MalformedHeader)
    );
    assert_eq!(
        PublishPacket::deserialize(&[0x36, 3, 0, 1, b'a']),
        Err(DecodeError::InvalidQoS)
    );
    assert_eq!(
        PublishPacket::deserialize(&[0x30]),
        Err(DecodeError::Truncated)
    );
    assert_eq!(
        PublishPacket::deserialize(&[0x30, 0x80, 0x80, 0x80, 0x80, 0x01]),
        Err(DecodeError::MalformedRemainingLength)
    );
    assert_eq!(
        PublishPacket::deserialize(&[0x30, 5, 0, 1, b'a']),
        Err(DecodeError::Truncated)
    );
    assert_eq!(
        PublishPacket::deserialize(&[0x30, 1, 0]),
        Err(DecodeError::WrongRemainingLength)
    );
    assert_eq!(
        PublishPacket::deserialize(&[0x30, 3, 0, 2, b'a']),
        Err(DecodeError::WrongRemainingLength)
    );
    assert_eq!(
        PublishPacket::deserialize(&[0x32, 4, 0, 1, b'a', 0]),
        Err(DecodeError::WrongRemainingLength)
    );
    assert_eq!(
        PublishPacket::deserialize(&[0x30, 4, 0, 2, 0xc3, 0x28]),
        Err(DecodeError::InvalidUtf8)
    );
}

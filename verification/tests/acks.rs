use mqtt_client::error::{DecodeError, EncodeError};
use mqtt_client::packet::{
    ConnackPacket, DisconnectPacket, PingreqPacket, PingrespPacket, PubackPacket, PubcompPacket,
    PubrecPacket, PubrelPacket, SubackPacket, UnsubackPacket,
};
use mqtt_client::qos::QoS;

#[test]
fn puback_bytes_and_back() {
    let packet = PubackPacket { packet_id: 0x1234 };
    let bytes = packet.serialize().unwrap();
    assert_eq!(bytes, vec![0x40, 0x02, 0x12, 0x34]);
    assert_eq!(PubackPacket::deserialize(&bytes), Ok((packet, 4)));
}

#[test]
fn pubrec_bytes_and_back() {
    let packet = PubrecPacket { packet_id: 0x00ff };
    let bytes = packet.serialize().unwrap();
    assert_eq!(bytes, vec![0x50, 0x02, 0x00, 0xff]);
    assert_eq!(PubrecPacket::deserialize(&bytes), Ok((packet, 4)));
}

#[test]
fn pubrel_bytes_and_back() {
    let packet = PubrelPacket { packet_id: 0xff00 };
    let bytes = packet.serialize().unwrap();
    assert_eq!(bytes, vec![0x62, 0x02, 0xff, 0x00]);
    assert_eq!(PubrelPacket::deserialize(&bytes), Ok((packet, 4)));
}

#[test]
fn pubcomp_bytes_and_back() {
    let packet = PubcompPacket { packet_id: 1 };
    let bytes = packet.serialize().unwrap();
    assert_eq!(bytes, vec![0x70, 0x02, 0x00, 0x01]);
    assert_eq!(PubcompPacket::deserialize(&bytes), Ok((packet, 4)));
}

#[test]
fn ack_round_trip_at_the_ends_of_the_range() {
    for packet_id in [0u16, 1, 255, 256, 0x7fff, 0x8000, 0xffff] {
        let packet = PubackPacket { packet_id };
        let mut bytes = packet.serialize().unwrap();
        bytes.extend_from_slice(&[0xaa, 0xbb]);
        assert_eq!(PubackPacket::deserialize(&bytes), Ok((packet, 4)));
    }
}

#[test]
fn ack_decode_errors() {
    assert_eq!(PubackPacket::deserialize(&[]), Err(DecodeError::Truncated));
    assert_eq!(
        PubackPacket::deserialize(&[0x50, 2, 0, 1]),
        Err(DecodeError::MalformedHeader)
    );
    assert_eq!(
        PubackPacket::deserialize(&[0x41, 2, 0, 1]),
        Err(DecodeError::MalformedHeader)
    );
    assert_eq!(
        PubackPacket::deserialize(&[0x40]),
        Err(DecodeError::Truncated)
    );
    assert_eq!(
        PubackPacket::deserialize(&[0x40, 3, 0, 1, 0]),
        Err(DecodeError::WrongRemainingLength)
    );
    assert_eq!(
        PubackPacket::deserialize(&[0x40, 2, 0]),
        Err(DecodeError::Truncated)
    );
}

#[test]
fn pubrel_insists_on_its_reserved_bits() {
    assert_eq!(
        PubrelPacket::deserialize(&[0x60, 2, 0, 1]),
        Err(DecodeError::MalformedHeader)
    );
    assert_eq!(
        PubrelPacket::deserialize(&[0x62, 2, 0, 9]),
        Ok((PubrelPacket { packet_id: 9 }, 4))
    );
}

#[test]
fn unsuback_is_read_and_not_written() {
    assert_eq!(
        UnsubackPacket::deserialize(&[0xb0, 2, 0xab, 0xcd, 0x99]),
        Ok((UnsubackPacket { packet_id: 0xabcd }, 4))
    );
    assert_eq!(
        UnsubackPacket::deserialize(&[0xb0, 1, 0xab]),
        Err(DecodeError::WrongRemainingLength)
    );
    assert_eq!(
        UnsubackPacket { packet_id: 1 }.serialize(),
        Err(EncodeError::NotSupported)
    );
}

#[test]
fn connack_accepted() {
    assert_eq!(
        ConnackPacket::deserialize(&[0x20, 0x02, 0x00, 0x00]),
        Ok((
            ConnackPacket {
                sp: false,
                accepted: true,
                refused_reason: None
            },
            4
        ))
    );
}

#[test]
fn connack_session_present() {
    let (packet, size) = ConnackPacket::deserialize(&[0x20, 0x02, 0x01, 0x00, 0x30]).unwrap();
    assert_eq!(size, 4);
    assert!(packet.sp);
    assert!(packet.accepted);
}

#[test]
fn connack_refusal_reasons() {
    let reasons = [
        "unacceptable protocol version",
        "identifier rejected",
        "server unavailable",
        "bad user name or password",
        "not authorized",
    ];
    for (i, reason) in reasons.iter().enumerate() {
        let code = (i + 1) as u8;
        assert_eq!(
            ConnackPacket::deserialize(&[0x20, 0x02, 0x00, code]),
            Ok((
                ConnackPacket {
                    sp: false,
                    accepted: false,
                    refused_reason: Some(*reason)
                },
                4
            ))
        );
    }
}

#[test]
fn connack_decode_errors() {
    assert_eq!(ConnackPacket::deserialize(&[]), Err(DecodeError::Truncated));
    assert_eq!(
        ConnackPacket::deserialize(&[0x21, 2, 0, 0]),
        Err(DecodeError::MalformedHeader)
    );
    assert_eq!(
        ConnackPacket::deserialize(&[0x20]),
        Err(DecodeError::Truncated)
    );
    assert_eq!(
        ConnackPacket::deserialize(&[0x20, 3, 0, 0]),
        Err(DecodeError::WrongRemainingLength)
    );
    assert_eq!(
        ConnackPacket::deserialize(&[0x20, 2, 0]),
        Err(DecodeError::Truncated)
    );
    assert_eq!(
        ConnackPacket::deserialize(&[0x20, 2, 0, 6]),
        Err(DecodeError::InvalidReturnCode)
    );
    assert_eq!(
        ConnackPacket::deserialize(&[0x20, 2, 0, 255]),
        Err(DecodeError::InvalidReturnCode)
    );
}

#[test]
fn connack_is_not_written_by_a_client() {
    let packet = ConnackPacket {
        sp: false,
        accepted: true,
        refused_reason: None,
    };
    assert_eq!(packet.serialize(), Err(EncodeError::NotSupported));
}

#[test]
fn suback_granted_levels() {
    for (code, qos) in [(0u8, QoS::QoS0), (1, QoS::QoS1), (2, QoS::QoS2)] {
        assert_eq!(
            SubackPacket::deserialize(&[0x90, 3, 0x01, 0x02, code]),
            Ok((
                SubackPacket {
                    packet_id: 0x0102,
                    maximum_qos: Some(qos),
                    failure: false
                },
                5
            ))
        );
    }
}

#[test]
fn suback_failure() {
    assert_eq!(
        SubackPacket::deserialize(&[0x90, 3, 0, 7, 128, 0xff]),
        Ok((
            SubackPacket {
                packet_id: 7,
                maximum_qos: None,
                failure: true
            },
            5
        ))
    );
}

#[test]
fn suback_decode_errors() {
    assert_eq!(SubackPacket::deserialize(&[]), Err(DecodeError::Truncated));
    assert_eq!(
        SubackPacket::deserialize(&[0x92, 3, 0, 1, 0]),
        Err(DecodeError::MalformedHeader)
    );
    assert_eq!(
        SubackPacket::deserialize(&[0x90]),
        Err(DecodeError::Truncated)
    );
    assert_eq!(
        SubackPacket::deserialize(&[0x90, 2, 0, 1]),
        Err(DecodeError::WrongRemainingLength)
    );
    assert_eq!(
        SubackPacket::deserialize(&[0x90, 3, 0, 1]),
        Err(DecodeError::Truncated)
    );
    assert_eq!(
        SubackPacket::deserialize(&[0x90, 3, 0, 1, 3]),
        Err(DecodeError::InvalidReturnCode)
    );
    assert_eq!(
        SubackPacket::deserialize(&[0x90, 3, 0, 1, 127]),
        Err(DecodeError::InvalidReturnCode)
    );
}

#[test]
fn suback_is_not_written_by_a_client() {
    let packet = SubackPacket {
        packet_id: 1,
        maximum_qos: Some(QoS::QoS0),
        failure: false,
    };
    assert_eq!(packet.serialize(), Err(EncodeError::NotSupported));
}

#[test]
fn pingreq_and_disconnect_bytes() {
    assert_eq!(PingreqPacket {}.serialize(), Ok(vec![0xc0, 0x00]));
    assert_eq!(DisconnectPacket {}.serialize(), Ok(vec![0xe0, 0x00]));
    assert_eq!(
        PingreqPacket::deserialize(&[0xc0, 0x00]),
        Err(DecodeError::NotSupported)
    );
    assert_eq!(
        DisconnectPacket::deserialize(&[0xe0, 0x00]),
        Err(DecodeError::NotSupported)
    );
}

#[test]
fn pingresp_is_read_and_not_written() {
    assert_eq!(
        PingrespPacket::deserialize(&[0xd0, 0x00, 0x30]),
        Ok((PingrespPacket {}, 2))
    );
    assert_eq!(PingrespPacket::deserialize(&[]), Err(DecodeError::Truncated));
    assert_eq!(
        PingrespPacket::deserialize(&[0xd1, 0]),
        Err(DecodeError::MalformedHeader)
    );
    assert_eq!(
        PingrespPacket::deserialize(&[0xd0]),
        Err(DecodeError::Truncated)
    );
    assert_eq!(
        PingrespPacket::deserialize(&[0xd0, 1, 0]),
        Err(DecodeError::WrongRemainingLength)
    );
    assert_eq!(PingrespPacket {}.serialize(), Err(EncodeError::NotSupported));
}

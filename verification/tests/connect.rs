use mqtt_client::error::EncodeError;
use mqtt_client::packet::connect::{client_id_from, decimal_string};
use mqtt_client::packet::ConnectPacket;
use mqtt_client::qos::QoS;

#[test]
fn test_serialize_connect_annonymous_packet() {
    let connect_packet = ConnectPacket {
        client_id: "hello".to_string(),
        username: None,
        password: None,
        qos: QoS::QoS0,
        will_retain: false,
        will_flag: false,
        clean_session: true,
        keep_alive: 60,
        will_topic: None,
        will_message: None,
    };
    let bytes = connect_packet.serialize().unwrap();
    assert_eq!(
        bytes,
        vec![
            // CONNECT=1, 0000
            0b0001_0000,
            // remaining length
            17,
            // Protocol name length (4 bytes)
            0x00,
            0x04,
            // Protocol name (MQTT)
            0x4d,
            0x51,
            0x54,
            0x54,
            // Protocol level (3.1.1 => 4)
            0x04,
            // Control flag (clean session = 1)
            0b0000_0010,
            // keep alive (60 seconds)
            0x00,
            0x3c,
            // Client ID length
            0x00,
            0x05,
            // Client ID (hello)
            0x68,
            0x65,
            0x6c,
            0x6c,
            0x6f,
        ]
    );
}

#[test]
fn test_serialize_connect_username_password_packet() {
    let connect_packet = ConnectPacket {
        client_id: "hello".to_string(),
        username: Some("AAA".to_string()),
        password: Some("BBB".to_string()),
        qos: QoS::QoS0,
        will_retain: false,
        will_flag: false,
        clean_session: true,
        keep_alive: 60,
        will_topic: None,
        will_message: None,
    };
    let bytes = connect_packet.serialize().unwrap();
    assert_eq!(
        bytes,
        vec![
            // CONNECT=1, 0000
            0b0001_0000,
            // remaining length
            27,
            // Protocol name length (4 bytes)
            0x00,
            0x04,
            // Protocol name (MQTT)
            0x4d,
            0x51,
            0x54,
            0x54,
            // Protocol level (3.1.1 => 4)
            0x04,
            // Control flag (username, password, clean session = 1)
            0b1100_0010,
            // keep alive (60 seconds)
            0x00,
            0x3c,
            // Client ID length
            0x00,
            0x05,
            // Client ID (hello)
            0x68,
            0x65,
            0x6c,
            0x6c,
            0x6f,
            // Username length
            0x00,
            0x03,
            // Username (AAA)
            0x41,
            0x41,
            0x41,
            // Password length
            0x00,
            0x03,
            // Password (BBB)
            0x42,
            0x42,
            0x42,
        ]
    );
}

#[test]
fn test_serialize_connect_will_packet() {
    let connect_packet = ConnectPacket {
        client_id: "hello".to_string(),
        username: None,
        password: None,
        qos: QoS::QoS0,
        will_retain: false,
        will_flag: true,
        clean_session: true,
        keep_alive: 60,
        will_topic: Some("a/b".to_string()),
        will_message: Some("hello".to_string()),
    };
    let bytes = connect_packet.serialize().unwrap();
    assert_eq!(
        bytes,
        vec![
            // CONNECT=1, 0000
            0b0001_0000,
            // remaining length
            29,
            // Protocol name length (4 bytes)
            0x00,
            0x04,
            // Protocol name (MQTT)
            0x4d,
            0x51,
            0x54,
            0x54,
            // Protocol level (3.1.1 => 4)
            0x04,
            // Control flag (will flag, clean session = 1)
            0b0000_0110,
            // keep alive (60 seconds)
            0x00,
            0x3c,
            // Client ID length
            0x00,
            0x05,
            // Client ID (hello)
            0x68,
            0x65,
            0x6c,
            0x6c,
            0x6f,
            // will topic length
            0x00,
            0x03,
            // will topic (a/b)
            0x61,
            0x2f,
            0x62,
            // will message length
            0x00,
            0x05,
            // will message (hello)
            0x68,
            0x65,
            0x6c,
            0x6c,
            0x6f,
        ]
    );
}

fn plain_connect() -> ConnectPacket {
    ConnectPacket {
        client_id: "c".to_string(),
        username: None,
        password: None,
        qos: QoS::QoS0,
        will_retain: false,
        will_flag: false,
        clean_session: false,
        keep_alive: 0x0102,
        will_topic: None,
        will_message: None,
    }
}

#[test]
fn connect_flags_carry_will_qos_and_retain() {
    let mut packet = plain_connect();
    packet.qos = QoS::QoS2;
    packet.will_retain = true;
    packet.will_flag = true;
    packet.will_topic = Some("t".to_string());
    packet.will_message = Some("m".to_string());
    packet.username = Some("u".to_string());
    let bytes = packet.serialize().unwrap();
    assert_eq!(bytes[9], 0b1011_0100);
    assert_eq!(&bytes[10..12], &[0x01, 0x02]);
    assert_eq!(
        &bytes[12..],
        &[0, 1, b'c', 0, 1, b't', 0, 1, b'm', 0, 1, b'u']
    );
    assert_eq!(bytes[1] as usize, bytes.len() - 2);
}

#[test]
fn connect_all_flags_clear() {
    let bytes = plain_connect().serialize().unwrap();
    assert_eq!(bytes[9], 0);
}

#[test]
fn connect_rejects_password_without_username() {
    let mut packet = plain_connect();
    packet.password = Some("secret".to_string());
    assert!(!packet.is_well_formed());
    assert_eq!(packet.serialize(), Err(EncodeError::InvalidPacket));
}

#[test]
fn connect_rejects_will_flag_without_will() {
    let mut packet = plain_connect();
    packet.will_flag = true;
    packet.will_topic = Some("t".to_string());
    assert!(!packet.is_well_formed());
    assert_eq!(packet.serialize(), Err(EncodeError::InvalidPacket));
    packet.will_topic = None;
    packet.will_message = Some("m".to_string());
    assert_eq!(packet.serialize(), Err(EncodeError::InvalidPacket));
}

#[test]
fn connect_leaves_out_will_when_flag_is_clear() {
    let mut packet = plain_connect();
    packet.will_topic = Some("t".to_string());
    packet.will_message = Some("m".to_string());
    assert!(packet.is_well_formed());
    assert_eq!(packet.serialize(), plain_connect().serialize());
}

#[test]
fn connect_rejects_long_client_id() {
    let mut packet = plain_connect();
    packet.client_id = "x".repeat(65536);
    assert_eq!(packet.serialize(), Err(EncodeError::FieldTooLong));
    packet.client_id = "x".repeat(65535);
    let bytes = packet.serialize().unwrap();
    assert_eq!(bytes.len(), 1 + 3 + 10 + 2 + 65535);
    assert_eq!(&bytes[1..4], &[0x8b, 0x80, 0x04]);
    assert_eq!(&bytes[14..16], &[0xff, 0xff]);
}

#[test]
fn connect_rejects_long_password() {
    let mut packet = plain_connect();
    packet.username = Some("u".to_string());
    packet.password = Some("p".repeat(70000));
    assert_eq!(packet.serialize(), Err(EncodeError::FieldTooLong));
}

#[test]
fn connect_counts_bytes_not_characters() {
    let mut packet = plain_connect();
    packet.client_id = "é".to_string();
    let bytes = packet.serialize().unwrap();
    assert_eq!(&bytes[12..], &[0, 2, 0xc3, 0xa9]);
}

#[test]
fn connect_new_keeps_what_it_is_given() {
    let packet = ConnectPacket::new(
        Some("u".to_string()),
        Some("p".to_string()),
        Some("hello".to_string()),
        60,
        true,
        true,
        Some("a/b".to_string()),
        Some("bye".to_string()),
    );
    assert_eq!(
        packet,
        ConnectPacket {
            client_id: "hello".to_string(),
            username: Some("u".to_string()),
            password: Some("p".to_string()),
            qos: QoS::QoS0,
            will_retain: false,
            will_flag: true,
            clean_session: true,
            keep_alive: 60,
            will_topic: Some("a/b".to_string()),
            will_message: Some("bye".to_string()),
        }
    );
}

#[test]
fn connect_new_makes_up_a_client_id() {
    let packet = ConnectPacket::new(None, None, None, 10, false, false, None, None);
    let suffix = packet.client_id.strip_prefix("mqttclient").unwrap();
    let n: u16 = suffix.parse().unwrap();
    assert_eq!(packet.client_id, format!("mqttclient{}", n));
    assert!(packet.is_well_formed());
}

#[test]
fn client_id_from_number() {
    assert_eq!(client_id_from(0), "mqttclient0");
    assert_eq!(client_id_from(7), "mqttclient7");
    assert_eq!(client_id_from(10), "mqttclient10");
    assert_eq!(client_id_from(4096), "mqttclient4096");
    assert_eq!(client_id_from(65535), "mqttclient65535");
}

#[test]
fn decimal_string_of_every_length() {
    assert_eq!(decimal_string(0), "0");
    assert_eq!(decimal_string(9), "9");
    assert_eq!(decimal_string(10), "10");
    assert_eq!(decimal_string(99), "99");
    assert_eq!(decimal_string(100), "100");
    assert_eq!(decimal_string(1234), "1234");
    assert_eq!(decimal_string(60000), "60000");
    assert_eq!(decimal_string(12345), "12345");
    assert_eq!(decimal_string(65535), "65535");
}

#[test]
fn connect_is_not_read_by_a_client() {
    let bytes = plain_connect().serialize().unwrap();
    assert_eq!(
        ConnectPacket::deserialize(&bytes),
        Err(mqtt_client::error::DecodeError::NotSupported)
    );
}

//! CONNECT: the first packet of a session, from client to broker.

use vstd::prelude::*;
use vstd::string::*;
use crate::error::{DecodeError, EncodeError};
use crate::packet::codec::{
    be16, bit, decoded, encoded, fits_field, flag, push_text, push_u16, text_field,
    MAX_FIELD_LENGTH,
};
use crate::packet::random_u16;
use crate::packet::remaining_length::{frame, insert_remaining_length};
use crate::qos::QoS;

verus! {

/// First byte of a CONNECT packet.
pub const CONNECT_HEADER: u8 = 0x10;

/// The protocol level that stands for MQTT 3.1.1.
pub const PROTOCOL_LEVEL: u8 = 4;

/// A CONNECT packet.
#[derive(Clone, Debug, PartialEq)]
pub struct ConnectPacket {
    pub client_id: String,
    pub username: Option<String>,
    pub password: Option<String>,
    /// Quality of service of the will message.
    pub qos: QoS,
    pub will_retain: bool,
    pub will_flag: bool,
    pub clean_session: bool,
    /// Keep-alive interval in seconds.
    pub keep_alive: u16,
    pub will_topic: Option<String>,
    pub will_message: Option<String>,
}

/// What a CONNECT packet holds, as mathematical values.
pub struct ConnectView {
    pub client_id: Seq<char>,
    pub username: Option<Seq<char>>,
    pub password: Option<Seq<char>>,
    pub qos: QoS,
    pub will_retain: bool,
    pub will_flag: bool,
    pub clean_session: bool,
    pub keep_alive: u16,
    pub will_topic: Option<Seq<char>>,
    pub will_message: Option<Seq<char>>,
}

/// The view of a text that may be absent.
pub open spec fn text_view(text: Option<String>) -> Option<Seq<char>> {
    match text {
        Some(t) => Some(t@),
        None => None,
    }
}

impl View for ConnectPacket {
    type V = ConnectView;

    open spec fn view(&self) -> ConnectView {
        ConnectView {
            client_id: self.client_id@,
            username: text_view(self.username),
            password: text_view(self.password),
            qos: self.qos,
            will_retain: self.will_retain,
            will_flag: self.will_flag,
            clean_session: self.clean_session,
            keep_alive: self.keep_alive,
            will_topic: text_view(self.will_topic),
            will_message: text_view(self.will_message),
        }
    }
}

/// The length and the letters of the protocol name, "MQTT".
pub open spec fn protocol_name() -> Seq<u8> {
    seq![0x00u8, 0x04u8, 0x4du8, 0x51u8, 0x54u8, 0x54u8]
}

/// The character for a decimal digit.
pub open spec fn digit_char(d: nat) -> char {
    if d == 0 {
        '0'
    } else if d == 1 {
        '1'
    } else if d == 2 {
        '2'
    } else if d == 3 {
        '3'
    } else if d == 4 {
        '4'
    } else if d == 5 {
        '5'
    } else if d == 6 {
        '6'
    } else if d == 7 {
        '7'
    } else if d == 8 {
        '8'
    } else {
        '9'
    }
}

/// A number in decimal, without leading zeros.
pub open spec fn decimal(n: nat) -> Seq<char>
    decreases n,
{
    if n < 10 {
        seq![digit_char(n)]
    } else {
        decimal(n / 10).push(digit_char(n % 10))
    }
}

/// The client identifier that a packet built without one gets: the word
/// `mqttclient` and then `n` in decimal.
pub open spec fn default_client_id(n: u16) -> Seq<char> {
    "mqttclient"@ + decimal(n as nat)
}

impl ConnectView {
    /// The rules of the data model: no password without a user name, and a
    /// will flag only with both a will topic and a will message.
    pub open spec fn wf(self) -> bool {
        &&& self.password is Some ==> self.username is Some
        &&& self.will_flag ==> self.will_topic is Some && self.will_message is Some
    }

    /// The connect flags: user name, password, will retain, will quality of
    /// service (two bits), will flag, clean session, and a zero.
    pub open spec fn control_flags(self) -> u8 {
        (128 * bit(self.username is Some) + 64 * bit(self.password is Some) + 32 * bit(
            self.will_retain,
        ) + 8 * self.qos.code() + 4 * bit(self.will_flag) + 2 * bit(self.clean_session)) as u8
    }

    /// The will topic and the will message, where the will flag is set.
    pub open spec fn will_fields(self) -> Seq<u8> {
        if self.will_flag {
            text_field(self.will_topic->0) + text_field(self.will_message->0)
        } else {
            Seq::<u8>::empty()
        }
    }

    /// The user name, and the password after it, as far as they are there.
    pub open spec fn credential_fields(self) -> Seq<u8> {
        match self.username {
            Some(username) => text_field(username) + (match self.password {
                Some(password) => text_field(password),
                None => Seq::<u8>::empty(),
            }),
            None => Seq::<u8>::empty(),
        }
    }

    /// Whether every text that goes on the wire fits a text field.
    pub open spec fn fields_fit(self) -> bool {
        &&& fits_field(self.client_id)
        &&& self.will_flag ==> fits_field(self.will_topic->0) && fits_field(self.will_message->0)
        &&& self.username is Some ==> fits_field(self.username->0)
        &&& self.username is Some && self.password is Some ==> fits_field(self.password->0)
    }

    /// Everything that the remaining length counts: the variable header
    /// (protocol name, protocol level, connect flags, keep-alive) and the
    /// payload (client identifier, will, credentials).
    pub open spec fn body(self) -> Seq<u8> {
        protocol_name() + seq![PROTOCOL_LEVEL, self.control_flags()] + be16(self.keep_alive)
            + text_field(self.client_id) + self.will_fields() + self.credential_fields()
    }

    /// The packet on the wire.
    pub open spec fn wire(self) -> Seq<u8> {
        frame(CONNECT_HEADER, self.body())
    }

    /// What serializing gives: the wire form, or the reason why there is none.
    pub open spec fn encoding(self) -> Result<Seq<u8>, EncodeError> {
        if !self.wf() {
            Err(EncodeError::InvalidPacket)
        } else if !self.fields_fit() {
            Err(EncodeError::FieldTooLong)
        } else {
            Ok(self.wire())
        }
    }
}

fn digit_text(d: u16) -> (text: &'static str)
    requires
        d < 10,
    ensures
        text@ == seq![digit_char(d as nat)],
{
    proof {
        reveal_strlit("0");
        reveal_strlit("1");
        reveal_strlit("2");
        reveal_strlit("3");
        reveal_strlit("4");
        reveal_strlit("5");
        reveal_strlit("6");
        reveal_strlit("7");
        reveal_strlit("8");
        reveal_strlit("9");
    }
    let text = match d {
        0 => "0",
        1 => "1",
        2 => "2",
        3 => "3",
        4 => "4",
        5 => "5",
        6 => "6",
        7 => "7",
        8 => "8",
        _ => "9",
    };
    assert(text@ =~= seq![digit_char(d as nat)]);
    text
}

/// Writes `n` in decimal.
pub fn decimal_string(n: u16) -> (text: String)
    ensures
        text@ == decimal(n as nat),
    decreases n,
{
    if n < 10 {
        digit_text(n).to_owned()
    } else {
        let text = decimal_string(n / 10).concat(digit_text(n % 10));
        assert(text@ =~= decimal(n as nat));
        text
    }
}

/// The client identifier for a packet that was given none, from the number
/// that was drawn for it.
pub fn client_id_from(n: u16) -> (client_id: String)
    ensures
        client_id@ == default_client_id(n),
{
    "mqttclient".to_owned().concat(decimal_string(n).as_str())
}

impl ConnectPacket {
    /// Builds a CONNECT packet for a will of quality of service 0 that is
    /// not retained. Without a client identifier the packet gets
    /// `mqttclient` followed by a random 16-bit number.
    pub fn new(
        username: Option<String>,
        password: Option<String>,
        client_id: Option<String>,
        keep_alive: u16,
        clean_session: bool,
        will_flag: bool,
        will_topic: Option<String>,
        will_message: Option<String>,
    ) -> (packet: Self)
        requires
            password is Some ==> username is Some,
            will_flag ==> will_topic is Some && will_message is Some,
        ensures
            packet@.wf(),
            client_id matches Some(given) ==> packet@.client_id == given@,
            client_id is None ==> exists|n: u16| packet@.client_id == default_client_id(n),
            packet@.username == text_view(username),
            packet@.password == text_view(password),
            packet@.qos == QoS::QoS0,
            packet@.will_retain == false,
            packet@.will_flag == will_flag,
            packet@.clean_session == clean_session,
            packet@.keep_alive == keep_alive,
            packet@.will_topic == text_view(will_topic),
            packet@.will_message == text_view(will_message),
    {
        let client_id = match client_id {
            Some(given) => given,
            None => client_id_from(random_u16()),
        };
        ConnectPacket {
            client_id,
            username,
            password,
            qos: QoS::QoS0,
            clean_session,
            keep_alive,
            will_flag,
            will_retain: false,
            will_topic,
            will_message,
        }
    }

    /// Whether the packet keeps the rules of the data model.
    pub fn is_well_formed(&self) -> (ok: bool)
        ensures
            ok == self@.wf(),
    {
        !(self.username.is_none() && self.password.is_some()) && !(self.will_flag && (
        self.will_topic.is_none() || self.will_message.is_none()))
    }

    /// Appends the first byte and the variable header.
    fn push_variable_header(&self, bytes: &mut Vec<u8>)
        ensures
            final(bytes)@ == old(bytes)@ + seq![CONNECT_HEADER] + protocol_name() + seq![
                PROTOCOL_LEVEL,
                self@.control_flags(),
            ] + be16(self.keep_alive),
    {
        // Fixed header
        bytes.push(CONNECT_HEADER);

        // Protocol name and level
        push_u16(bytes, 4);
        bytes.push(0x4d);
        bytes.push(0x51);
        bytes.push(0x54);
        bytes.push(0x54);
        bytes.push(PROTOCOL_LEVEL);
        assert(bytes@ =~= old(bytes)@ + seq![CONNECT_HEADER] + protocol_name() + seq![
            PROTOCOL_LEVEL,
        ]);

        // Connect flags
        let username: u8 = flag(self.username.is_some());
        let password: u8 = flag(self.password.is_some());
        let will_retain: u8 = flag(self.will_retain);
        let qos: u8 = self.qos.to_u8();
        let will_flag: u8 = flag(self.will_flag);
        let clean_session: u8 = flag(self.clean_session);
        assert(username << 7 | password << 6 | will_retain << 5 | qos << 3 | will_flag << 2
            | clean_session << 1 == 128 * username + 64 * password + 32 * will_retain + 8 * qos + 4
            * will_flag + 2 * clean_session) by (bit_vector)
            requires
                username <= 1,
                password <= 1,
                will_retain <= 1,
                qos <= 2,
                will_flag <= 1,
                clean_session <= 1,
        ;
        let control_flag: u8 = username << 7 | password << 6 | will_retain << 5 | qos << 3
            | will_flag << 2 | clean_session << 1;
        bytes.push(control_flag);
        let ghost with_flags = bytes@;
        assert(with_flags =~= old(bytes)@ + seq![CONNECT_HEADER] + protocol_name() + seq![
            PROTOCOL_LEVEL,
            self@.control_flags(),
        ]);

        push_u16(bytes, self.keep_alive);
    }

    /// Appends the will topic and the will message, where the will flag is set.
    fn push_will(&self, bytes: &mut Vec<u8>) -> (r: Result<(), EncodeError>)
        requires
            self@.wf(),
        ensures
            r is Ok <==> (self.will_flag ==> fits_field(self@.will_topic->0) && fits_field(
                self@.will_message->0,
            )),
            r is Ok ==> final(bytes)@ == old(bytes)@ + self@.will_fields(),
            r is Err ==> r == Err::<(), EncodeError>(EncodeError::FieldTooLong),
    {
        if self.will_flag {
            if let Some(will_topic) = &self.will_topic {
                push_text(bytes, will_topic.as_str())?;
            }
            if let Some(will_message) = &self.will_message {
                push_text(bytes, will_message.as_str())?;
            }
        }
        assert(bytes@ =~= old(bytes)@ + self@.will_fields());
        Ok(())
    }

    /// Appends the user name and the password, as far as they are there.
    fn push_credentials(&self, bytes: &mut Vec<u8>) -> (r: Result<(), EncodeError>)
        requires
            self@.wf(),
        ensures
            r is Ok <==> (self@.username is Some ==> fits_field(self@.username->0) && (
            self@.password is Some ==> fits_field(self@.password->0))),
            r is Ok ==> final(bytes)@ == old(bytes)@ + self@.credential_fields(),
            r is Err ==> r == Err::<(), EncodeError>(EncodeError::FieldTooLong),
    {
        if let Some(username) = &self.username {
            push_text(bytes, username.as_str())?;
            if let Some(password) = &self.password {
                push_text(bytes, password.as_str())?;
            }
        }
        assert(bytes@ =~= old(bytes)@ + self@.credential_fields());
        Ok(())
    }

    /// The packet as bytes.
    pub fn serialize(&self) -> (r: Result<Vec<u8>, EncodeError>)
        ensures
            encoded(r) == self@.encoding(),
    {
        if !self.is_well_formed() {
            return Err(EncodeError::InvalidPacket);
        }
        let mut bytes: Vec<u8> = Vec::new();
        self.push_variable_header(&mut bytes);
        push_text(&mut bytes, self.client_id.as_str())?;
        self.push_will(&mut bytes)?;
        self.push_credentials(&mut bytes)?;
        assert(bytes@ =~= seq![CONNECT_HEADER] + self@.body());
        assert(bytes@.subrange(1, bytes@.len() as int) =~= self@.body());
        assert(self@.body().len() <= 12 + 5 * (2 + MAX_FIELD_LENGTH));
        insert_remaining_length(&mut bytes)?;
        Ok(bytes)
    }

    /// A client never receives CONNECT: there is nothing to read.
    pub fn deserialize(buf: &[u8]) -> (r: Result<(Self, usize), DecodeError>)
        ensures
            decoded(r) == Err::<(ConnectView, nat), DecodeError>(DecodeError::NotSupported),
    {
        Err(DecodeError::NotSupported)
    }
}

} // verus!

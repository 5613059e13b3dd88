//! The failures that encoding and decoding can report.

use vstd::prelude::*;

verus! {

/// Why a packet could not be turned into bytes.
#[derive(Clone, Copy, Debug, PartialEq, Eq, Structural)]
pub enum EncodeError {
    /// A client never sends this packet type.
    NotSupported,
    /// The packet breaks a rule of its own data model, so no wire form exists.
    InvalidPacket,
    /// A length-prefixed field holds more than 65535 bytes.
    FieldTooLong,
    /// The bytes after the fixed header number more than 268435455.
    PacketTooLarge,
    /// The buffer does not even hold the fixed header byte.
    MissingFixedHeader,
}

/// Why a byte buffer could not be read as a packet.
#[derive(Clone, Copy, Debug, PartialEq, Eq, Structural)]
pub enum DecodeError {
    /// A client never receives this packet type.
    NotSupported,
    /// The buffer ends before the packet does.
    Truncated,
    /// The type nibble of the fixed header names no packet type.
    UnknownPacketType,
    /// The fixed header byte is not the one this packet type must carry.
    MalformedHeader,
    /// The remaining-length field runs past four bytes.
    MalformedRemainingLength,
    /// The remaining length does not fit the packet type or its contents.
    WrongRemainingLength,
    /// Two bits that should hold a quality of service hold 3 or more.
    InvalidQoS,
    /// A CONNACK return code above 5, or a SUBACK result other than 0, 1, 2, 128.
    InvalidReturnCode,
    /// A text field is not valid UTF-8.
    InvalidUtf8,
}

} // verus!

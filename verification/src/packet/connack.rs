//! CONNACK: the broker's answer to CONNECT.

use vstd::prelude::*;
use crate::error::{DecodeError, EncodeError};
use crate::packet::codec::{decoded, encoded};

verus! {

/// First byte of a CONNACK packet.
pub const CONNACK_HEADER: u8 = 0x20;

/// A CONNACK packet.
#[derive(Clone, Debug, PartialEq)]
pub struct ConnackPacket {
    /// Whether the broker already held a session for this client.
    pub sp: bool,
    pub accepted: bool,
    /// Why the connection was refused; absent when it was accepted.
    pub refused_reason: Option<&'static str>,
}

/// What a CONNACK packet holds, as mathematical values.
pub struct ConnackView {
    pub sp: bool,
    pub accepted: bool,
    pub refused_reason: Option<Seq<char>>,
}

impl View for ConnackPacket {
    type V = ConnackView;

    open spec fn view(&self) -> ConnackView {
        ConnackView {
            sp: self.sp,
            accepted: self.accepted,
            refused_reason: match self.refused_reason {
                Some(text) => Some(text@),
                None => None,
            },
        }
    }
}

/// The words for a return code: none for 0, which accepts the connection,
/// and one of five fixed reasons for 1 to 5.
pub open spec fn refusal_reason(code: u8) -> Option<Seq<char>> {
    if code == 1 {
        Some("unacceptable protocol version"@)
    } else if code == 2 {
        Some("identifier rejected"@)
    } else if code == 3 {
        Some("server unavailable"@)
    } else if code == 4 {
        Some("bad user name or password"@)
    } else if code == 5 {
        Some("not authorized"@)
    } else {
        None
    }
}

/// Reads the CONNACK packet that `buf` begins with. Gives the packet and the
/// four bytes that it takes up.
pub open spec fn parse_connack(buf: Seq<u8>) -> Result<(ConnackView, nat), DecodeError> {
    if buf.len() == 0 {
        Err(DecodeError::Truncated)
    } else if buf[0] != CONNACK_HEADER {
        Err(DecodeError::MalformedHeader)
    } else if buf.len() < 2 {
        Err(DecodeError::Truncated)
    } else if buf[1] != 2 {
        Err(DecodeError::WrongRemainingLength)
    } else if buf.len() < 4 {
        Err(DecodeError::Truncated)
    } else if buf[3] > 5 {
        Err(DecodeError::InvalidReturnCode)
    } else {
        Ok(
            (
                ConnackView {
                    sp: buf[2] % 2 == 1,
                    accepted: buf[3] == 0,
                    refused_reason: refusal_reason(buf[3]),
                },
                4,
            ),
        )
    }
}

impl ConnackPacket {
    /// A client never sends CONNACK: there is nothing to write.
    pub fn serialize(&self) -> (r: Result<Vec<u8>, EncodeError>)
        ensures
            encoded(r) == Err::<Seq<u8>, EncodeError>(EncodeError::NotSupported),
    {
        Err(EncodeError::NotSupported)
    }

    /// Reads the CONNACK packet that `buf` begins with. Gives the packet and
    /// the four bytes that it takes up.
    pub fn deserialize(buf: &[u8]) -> (r: Result<(Self, usize), DecodeError>)
        ensures
            decoded(r) == parse_connack(buf@),
    {
        if buf.len() == 0 {
            return Err(DecodeError::Truncated);
        }
        if buf[0] != CONNACK_HEADER {
            return Err(DecodeError::MalformedHeader);
        }
        if buf.len() < 2 {
            return Err(DecodeError::Truncated);
        }
        if buf[1] != 2 {
            return Err(DecodeError::WrongRemainingLength);
        }
        if buf.len() < 4 {
            return Err(DecodeError::Truncated);
        }
        let flags: u8 = buf[2];
        assert((flags & 0b0000_0001 == 1) == (flags % 2 == 1)) by (bit_vector);
        let sp = flags & 0b0000_0001 == 1;
        let refused_reason: Option<&'static str> = match buf[3] {
            0 => None,
            1 => Some("unacceptable protocol version"),
            2 => Some("identifier rejected"),
            3 => Some("server unavailable"),
            4 => Some("bad user name or password"),
            5 => Some("not authorized"),
            _ => {
                return Err(DecodeError::InvalidReturnCode);
            },
        };
        Ok((ConnackPacket { sp, accepted: refused_reason.is_none(), refused_reason }, 4))
    }
}

} // verus!

//! The three delivery guarantees and their two-bit wire encoding.

use vstd::prelude::*;
use vstd::std_specs::convert::TryFromSpecImpl;
use crate::error::DecodeError;

verus! {

/// Quality of service of a publication.
#[derive(Clone, Copy, Debug, PartialEq, Eq, Structural)]
pub enum QoS {
    /// At most once.
    QoS0,
    /// At least once.
    QoS1,
    /// Exactly once.
    QoS2,
}

impl QoS {
    /// The number that stands for this level on the wire.
    pub open spec fn code(self) -> u8 {
        match self {
            QoS::QoS0 => 0,
            QoS::QoS1 => 1,
            QoS::QoS2 => 2,
        }
    }

    /// The level that a wire number stands for, if any.
    pub open spec fn from_code(v: u8) -> Result<QoS, DecodeError> {
        if v == 0 {
            Ok(QoS::QoS0)
        } else if v == 1 {
            Ok(QoS::QoS1)
        } else if v == 2 {
            Ok(QoS::QoS2)
        } else {
            Err(DecodeError::InvalidQoS)
        }
    }

    /// Encodes the level as its ordinal.
    pub fn to_u8(self) -> (v: u8)
        ensures
            v == self.code(),
    {
        match self {
            QoS::QoS0 => 0,
            QoS::QoS1 => 1,
            QoS::QoS2 => 2,
        }
    }
}

/// Decodes a level from its ordinal. Any number above 2 is an error.
impl TryFrom<u8> for QoS {
    type Error = DecodeError;

    fn try_from(v: u8) -> (r: Result<QoS, DecodeError>) {
        match v {
            0 => Ok(QoS::QoS0),
            1 => Ok(QoS::QoS1),
            2 => Ok(QoS::QoS2),
            _ => Err(DecodeError::InvalidQoS),
        }
    }
}

impl TryFromSpecImpl<u8> for QoS {
    open spec fn obeys_try_from_spec() -> bool {
        true
    }

    open spec fn try_from_spec(v: u8) -> Result<QoS, DecodeError> {
        QoS::from_code(v)
    }
}

/// The three levels and the numbers 0, 1 and 2 stand for each other: a
/// level's number reads back as the level, a number that stands for a level
/// is that level's number, and no other number stands for one.
pub proof fn lemma_qos_codes_are_one_to_one(qos: QoS, v: u8)
    ensures
        QoS::from_code(qos.code()) == Ok::<QoS, DecodeError>(qos),
        QoS::from_code(v) is Ok <==> v <= 2,
        QoS::from_code(v) matches Ok(level) ==> level.code() == v,
        QoS::from_code(v) is Err ==> QoS::from_code(v) == Err::<QoS, DecodeError>(
            DecodeError::InvalidQoS,
        ),
{
}

} // verus!

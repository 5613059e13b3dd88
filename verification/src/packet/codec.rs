//! The small pieces that every packet is built from: two-byte integers,
//! length-prefixed text and the bits of the first byte.

use vstd::prelude::*;
use vstd::string::*;
use vstd::utf8::*;
use crate::error::{DecodeError, EncodeError};

verus! {

/// The longest text, in bytes, that a two-byte length can announce.
pub const MAX_FIELD_LENGTH: usize = 65535;

/// A 16-bit number, most significant byte first.
pub open spec fn be16(v: u16) -> Seq<u8> {
    seq![(v / 256) as u8, (v % 256) as u8]
}

/// The 16-bit number whose most significant byte is `hi`.
pub open spec fn be16_value(hi: u8, lo: u8) -> u16 {
    (hi * 256 + lo) as u16
}

/// Whether the UTF-8 form of `text` is short enough for a text field.
pub open spec fn fits_field(text: Seq<char>) -> bool {
    encode_utf8(text).len() <= MAX_FIELD_LENGTH
}

/// A text field: the byte count of the UTF-8 form, then that form.
pub open spec fn text_field(text: Seq<char>) -> Seq<u8> {
    be16(encode_utf8(text).len() as u16) + encode_utf8(text)
}

/// 1 for a set flag, 0 for a clear one.
pub open spec fn bit(flag: bool) -> u8 {
    if flag {
        1
    } else {
        0
    }
}

/// What `serialize` returned, with the bytes as a sequence.
pub open spec fn encoded(r: Result<Vec<u8>, EncodeError>) -> Result<Seq<u8>, EncodeError> {
    match r {
        Ok(bytes) => Ok(bytes@),
        Err(e) => Err(e),
    }
}

/// What `deserialize` returned, with the packet as its view and the number
/// of bytes read as a natural number.
pub open spec fn decoded<T: View>(r: Result<(T, usize), DecodeError>) -> Result<
    (T::V, nat),
    DecodeError,
> {
    match r {
        Ok((packet, consumed)) => Ok((packet@, consumed as nat)),
        Err(e) => Err(e),
    }
}

/// The two bytes of a number give the number back.
pub proof fn lemma_be16_round_trip(v: u16)
    ensures
        be16(v).len() == 2,
        be16_value(be16(v)[0], be16(v)[1]) == v,
{
}

/// Appends `v`, most significant byte first.
pub fn push_u16(bytes: &mut Vec<u8>, v: u16)
    ensures
        final(bytes)@ == old(bytes)@ + be16(v),
{
    bytes.push((v / 256) as u8);
    bytes.push((v % 256) as u8);
    assert(bytes@ =~= old(bytes)@ + be16(v));
}

/// Appends `text` as a text field, unless it is too long for one.
pub fn push_text(bytes: &mut Vec<u8>, text: &str) -> (r: Result<(), EncodeError>)
    ensures
        fits_field(text@) ==> r is Ok && final(bytes)@ == old(bytes)@ + text_field(text@),
        !fits_field(text@) ==> r == Err::<(), EncodeError>(EncodeError::FieldTooLong),
        r is Err ==> final(bytes)@ == old(bytes)@,
{
    let raw = text.as_bytes();
    if raw.len() > MAX_FIELD_LENGTH {
        return Err(EncodeError::FieldTooLong);
    }
    push_u16(bytes, raw.len() as u16);
    bytes.extend_from_slice(raw);
    assert(bytes@ =~= old(bytes)@ + text_field(text@));
    Ok(())
}

/// Reads the 16-bit number at `at`.
pub(crate) fn read_u16(bytes: &[u8], at: usize) -> (v: u16)
    requires
        at + 1 < bytes@.len(),
    ensures
        v == be16_value(bytes@[at as int], bytes@[at + 1]),
{
    (bytes[at] as u16) * 256 + (bytes[at + 1] as u16)
}

/// 1 for a set flag, 0 for a clear one.
pub(crate) fn flag(set: bool) -> (v: u8)
    ensures
        v == bit(set),
{
    if set {
        1
    } else {
        0
    }
}

/// Turns bytes into text where they are valid UTF-8.
///
/// This is `String::from_utf8` of the standard library, which accepts
/// exactly the valid UTF-8 sequences and then gives the text that they
/// encode; the error it returns otherwise is dropped.
#[verifier::external_body]
pub(crate) fn string_from_utf8(bytes: Vec<u8>) -> (r: Option<String>)
    ensures
        r is Some <==> valid_utf8(bytes@),
        r matches Some(text) ==> text@ == decode_utf8(bytes@),
{
    String::from_utf8(bytes).ok()
}

} // verus!

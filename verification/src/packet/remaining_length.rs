//! The variable-length integer that follows the first byte of every packet.
//!
//! Each byte carries seven bits of the number, least significant group
//! first; the high bit of a byte says that another byte follows. At most
//! four bytes are used, so the largest number is 268435455.

use vstd::prelude::*;
use crate::error::{DecodeError, EncodeError};

verus! {

/// The largest remaining length that four bytes can carry.
pub const MAX_REMAINING_LENGTH: usize = 268_435_455;

/// The bytes that stand for `n`.
pub open spec fn encode_length(n: nat) -> Seq<u8>
    decreases n,
{
    if n < 128 {
        seq![n as u8]
    } else {
        seq![(n % 128 + 128) as u8] + encode_length(n / 128)
    }
}

/// A whole packet: the first byte, the length of `body`, then `body`.
pub open spec fn frame(first: u8, body: Seq<u8>) -> Seq<u8> {
    seq![first] + encode_length(body.len()) + body
}

/// Reads a length whose next byte is `bytes[at]`, `used` bytes of it having
/// been read already. Gives the number that the bytes from `at` on stand for
/// and the index of the first byte after them.
pub open spec fn decode_length_from(bytes: Seq<u8>, at: int, used: nat) -> Result<
    (nat, nat),
    DecodeError,
>
    decreases 4 - used,
{
    if used >= 4 {
        Err(DecodeError::MalformedRemainingLength)
    } else if at < 0 || at >= bytes.len() {
        Err(DecodeError::Truncated)
    } else if bytes[at] < 128 {
        Ok((bytes[at] as nat, (at + 1) as nat))
    } else {
        match decode_length_from(bytes, at + 1, used + 1) {
            Ok((high, next)) => Ok(((bytes[at] - 128 + 128 * high) as nat, next)),
            Err(e) => Err(e),
        }
    }
}

/// The remaining length that a packet announces after its first byte, and
/// the index at which the bytes it counts begin.
pub open spec fn decode_length(bytes: Seq<u8>) -> Result<(nat, nat), DecodeError> {
    decode_length_from(bytes, 1, 0)
}

/// What a partly read length amounts to once `low`, the value of the bytes
/// read so far, is put below the rest, which counts in units of `scale`.
pub open spec fn below(low: nat, scale: nat, rest: Result<(nat, nat), DecodeError>) -> Result<
    (nat, nat),
    DecodeError,
> {
    match rest {
        Ok((high, next)) => Ok((low + scale * high, next)),
        Err(e) => Err(e),
    }
}

/// The result of `extract_remaining_length` as a value of the model.
pub open spec fn length_result(r: Result<(usize, usize), DecodeError>) -> Result<
    (nat, nat),
    DecodeError,
> {
    match r {
        Ok((length, next)) => Ok((length as nat, next as nat)),
        Err(e) => Err(e),
    }
}

proof fn lemma_scale_step(low: nat, scale: nat, digit: nat, high: nat)
    ensures
        low + scale * (digit + 128 * high) == (low + digit * scale) + (scale * 128) * high,
{
    assert(scale * (digit + 128 * high) == digit * scale + (scale * 128) * high)
        by (nonlinear_arith);
}

/// A length never takes fewer than one byte, and one that fits the limit
/// never takes more than four.
pub proof fn lemma_encode_length_len(n: nat)
    ensures
        encode_length(n).len() >= 1,
        n < 128 ==> encode_length(n).len() == 1,
        128 <= n < 16384 ==> encode_length(n).len() == 2,
        16384 <= n < 2097152 ==> encode_length(n).len() == 3,
        2097152 <= n <= MAX_REMAINING_LENGTH ==> encode_length(n).len() == 4,
{
    reveal_with_fuel(encode_length, 5);
}

/// Reading back what `encode_length` wrote gives the number again, whatever
/// byte stands before it and whatever bytes follow.
pub proof fn lemma_length_round_trip(first: u8, n: nat, rest: Seq<u8>)
    requires
        n <= MAX_REMAINING_LENGTH,
    ensures
        decode_length(seq![first] + encode_length(n) + rest) == Ok::<(nat, nat), DecodeError>(
            (n, 1 + encode_length(n).len()),
        ),
{
    reveal_with_fuel(encode_length, 5);
    reveal_with_fuel(decode_length_from, 5);
    let bytes = seq![first] + encode_length(n) + rest;
    let e = encode_length(n);
    assert(forall|i: int| 0 <= i < e.len() ==> bytes[1 + i] == e[i]);
}

/// A framed body is found again: the length read back is the body's, it
/// begins right after the length field, and the bytes that it counts are the
/// body, whatever follows the packet in the buffer.
pub proof fn lemma_frame_round_trip(first: u8, body: Seq<u8>, rest: Seq<u8>)
    requires
        body.len() <= MAX_REMAINING_LENGTH,
    ensures
        (frame(first, body) + rest)[0] == first,
        frame(first, body).len() == 1 + encode_length(body.len()).len() + body.len(),
        decode_length(frame(first, body) + rest) == Ok::<(nat, nat), DecodeError>(
            (body.len(), 1 + encode_length(body.len()).len()),
        ),
        (frame(first, body) + rest).subrange(
            1 + encode_length(body.len()).len() as int,
            frame(first, body).len() as int,
        ) == body,
{
    let buf = frame(first, body) + rest;
    assert(buf =~= seq![first] + encode_length(body.len()) + (body + rest));
    lemma_length_round_trip(first, body.len(), body + rest);
    assert(buf.subrange(
        1 + encode_length(body.len()).len() as int,
        frame(first, body).len() as int,
    ) =~= body);
}

/// Puts the remaining length into a packet that so far holds its first byte
/// and everything that the length counts.
///
/// The length goes in right after the first byte. A buffer without a first
/// byte, or one whose remaining length is above the limit, is left as it was.
pub fn insert_remaining_length(bytes: &mut Vec<u8>) -> (r: Result<(), EncodeError>)
    ensures
        old(bytes)@.len() == 0 ==> r == Err::<(), EncodeError>(EncodeError::MissingFixedHeader),
        old(bytes)@.len() > MAX_REMAINING_LENGTH + 1 ==> r == Err::<(), EncodeError>(
            EncodeError::PacketTooLarge,
        ),
        0 < old(bytes)@.len() <= MAX_REMAINING_LENGTH + 1 ==> r is Ok,
        r is Ok ==> final(bytes)@ == frame(
            old(bytes)@[0],
            old(bytes)@.subrange(1, old(bytes)@.len() as int),
        ),
        r is Err ==> final(bytes)@ == old(bytes)@,
{
    if bytes.len() == 0 {
        return Err(EncodeError::MissingFixedHeader);
    }
    let total: usize = bytes.len() - 1;
    if total > MAX_REMAINING_LENGTH {
        return Err(EncodeError::PacketTooLarge);
    }
    let mut length: usize = total;
    let mut length_bytes: Vec<u8> = Vec::new();
    loop
        invariant_except_break
            length <= total <= MAX_REMAINING_LENGTH,
            encode_length(total as nat) == length_bytes@ + encode_length(length as nat),
        ensures
            length_bytes@ == encode_length(total as nat),
        decreases length,
    {
        assert(length & 0x7f == length % 128) by (bit_vector);
        assert(length >> 7 == length / 128) by (bit_vector);
        let ghost written = length_bytes@;
        let ghost value = length;
        let b: u8 = (length & 0x7f) as u8;
        length >>= 7;
        if length > 0 {
            assert(b | 0x80 == b + 128) by (bit_vector)
                requires
                    b < 128,
            ;
            length_bytes.push(b | 0x80);
            assert(length_bytes@ + encode_length(length as nat) =~= written + encode_length(
                value as nat,
            ));
        } else {
            length_bytes.push(b);
            assert(length_bytes@ =~= written + encode_length(value as nat));
            break ;
        }
    }
    let ghost before = bytes@;
    let mut k: usize = 0;
    while k < length_bytes.len()
        invariant
            k <= length_bytes.len(),
            before.len() == total + 1,
            bytes@ == seq![before[0]] + length_bytes@.take(k as int) + before.subrange(
                1,
                before.len() as int,
            ),
        decreases length_bytes.len() - k,
    {
        bytes.insert(1 + k, length_bytes[k]);
        k += 1;
    }
    Ok(())
}

/// Reads the remaining length of the packet that `bytes` begins with.
///
/// Gives the length and the index of the first byte that it counts. Fails
/// when the buffer ends inside the length, or when a fourth byte of the
/// length still announces another.
pub fn extract_remaining_length(bytes: &[u8]) -> (r: Result<(usize, usize), DecodeError>)
    ensures
        length_result(r) == decode_length(bytes@),
        r matches Ok((length, next)) ==> length <= MAX_REMAINING_LENGTH && 2 <= next <= 5 && next
            <= bytes@.len(),
{
    let mut length: usize = 0;
    let mut multiplier: usize = 1;
    let mut i: usize = 1;
    let mut used: usize = 0;
    loop
        invariant
            used <= 4,
            i == used + 1,
            used == 0 ==> multiplier == 1,
            used == 1 ==> multiplier == 128,
            used == 2 ==> multiplier == 16384,
            used == 3 ==> multiplier == 2097152,
            used == 4 ==> multiplier == 268435456,
            length < multiplier,
            decode_length(bytes@) == below(
                length as nat,
                multiplier as nat,
                decode_length_from(bytes@, i as int, used as nat),
            ),
        decreases 4 - used,
    {
        if used >= 4 {
            return Err(DecodeError::MalformedRemainingLength);
        }
        if i >= bytes.len() {
            return Err(DecodeError::Truncated);
        }
        let b: u8 = bytes[i];
        assert(b & 0x7f == b % 128) by (bit_vector);
        assert((b & 0x80 == 0) == (b < 128)) by (bit_vector);
        let digit: u8 = b & 0x7f;
        proof {
            assert(digit * multiplier < 128 * multiplier) by (nonlinear_arith)
                requires
                    digit < 128,
                    multiplier > 0,
            ;
            assert(multiplier * digit == digit * multiplier) by (nonlinear_arith);
            if b >= 128 {
                let rest = decode_length_from(bytes@, i + 1, (used + 1) as nat);
                if let Ok((high, next)) = rest {
                    lemma_scale_step(length as nat, multiplier as nat, digit as nat, high);
                }
            }
        }
        length += (digit as usize) * multiplier;
        if (b & 0x80) == 0 {
            return Ok((length, i + 1));
        }
        multiplier *= 128;
        i += 1;
        used += 1;
    }
}

} // verus!

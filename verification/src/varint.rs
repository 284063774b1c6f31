//! The two low-level integer codecs of the event stream: unsigned LEB128
//! varints (seven data bits per byte, continuation in bit 7, at most ten
//! bytes) and the zigzag mapping that folds signed integers into them.

use vstd::prelude::*;

use crate::error::ParseError;

verus! {

/// One step of the LEB128 read: `pos` is the next byte to read, `start` the
/// position the read began at (reported on overflow), `shift` the bit
/// position the next group lands at, `acc` the bits read so far.
pub open spec fn spec_varint_loop(
    data: Seq<u8>,
    pos: int,
    start: int,
    shift: u64,
    acc: u64,
) -> Result<(u64, int), ParseError>
    decreases 64 - shift,
{
    if pos < 0 || pos >= data.len() {
        Err(ParseError::UnexpectedEof { offset: pos as usize })
    } else {
        let byte = data[pos];
        let acc2 = (acc | (((byte & 0x7f) as u64) << shift)) as u64;
        if byte & 0x80 == 0 {
            Ok((acc2, pos + 1))
        } else if shift + 7 >= 64 {
            Err(ParseError::MalformedLeb128 { offset: start as usize })
        } else {
            spec_varint_loop(data, pos + 1, start, (shift + 7) as u64, acc2)
        }
    }
}

/// What reading an unsigned LEB128 varint at `pos` yields: the value and the
/// position just past it, or the error the read fails with.
pub open spec fn spec_varint(data: Seq<u8>, pos: int) -> Result<(u64, int), ParseError> {
    spec_varint_loop(data, pos, pos, 0, 0)
}

/// A successful varint read consumes at least one byte and stays in bounds.
pub proof fn lemma_varint_loop_advances(
    data: Seq<u8>,
    pos: int,
    start: int,
    shift: u64,
    acc: u64,
)
    ensures
        spec_varint_loop(data, pos, start, shift, acc) matches Ok((v, p)) ==> pos < p
            <= data.len(),
    decreases 64 - shift,
{
    if 0 <= pos < data.len() {
        let byte = data[pos];
        if byte & 0x80 != 0 && shift + 7 < 64 {
            lemma_varint_loop_advances(
                data,
                pos + 1,
                start,
                (shift + 7) as u64,
                (acc | (((byte & 0x7f) as u64) << shift)) as u64,
            );
        }
    }
}

pub proof fn lemma_varint_advances(data: Seq<u8>, pos: int)
    ensures
        spec_varint(data, pos) matches Ok((v, p)) ==> pos < p <= data.len(),
{
    lemma_varint_loop_advances(data, pos, pos, 0, 0);
}

/// Reads an unsigned LEB128 varint, advancing `pos` past it. Fails with
/// `UnexpectedEof` at the end of the data and with `MalformedLeb128` when a
/// continuation bit asks for an eleventh byte.
pub fn read_unsigned_varint(data: &[u8], pos: &mut usize) -> (r: Result<u64, ParseError>)
    ensures
        ({
            let sp = spec_varint(data@, *old(pos) as int);
            match r {
                Ok(v) => sp == Ok::<(u64, int), ParseError>((v, *final(pos) as int)) && *final(pos)
                    <= data@.len(),
                Err(e) => sp == Err::<(u64, int), ParseError>(e),
            }
        }),
        *final(pos) >= *old(pos),
        *old(pos) <= data@.len() ==> *final(pos) <= data@.len(),
{
    let ghost start_pos = *pos;
    let start = *pos;
    let mut result: u64 = 0;
    let mut shift: u32 = 0;
    loop
        invariant
            start_pos == *old(pos),
            start == start_pos,
            *pos >= start_pos,
            start_pos <= data@.len() ==> *pos <= data@.len(),
            shift <= 63,
            spec_varint_loop(data@, *pos as int, start_pos as int, shift as u64, result)
                == spec_varint(data@, start_pos as int),
        decreases 64 - shift,
    {
        if *pos >= data.len() {
            return Err(ParseError::UnexpectedEof { offset: *pos });
        }
        let byte = data[*pos];
        *pos += 1;
        result = result | (((byte & 0x7f) as u64) << shift);
        if byte & 0x80 == 0 {
            return Ok(result);
        }
        shift += 7;
        if shift >= 64 {
            return Err(ParseError::MalformedLeb128 { offset: start });
        }
    }
}

/// The canonical LEB128 encoding of `u`: shortest form, little-endian
/// seven-bit groups.
pub open spec fn spec_varint_encoding(u: u64) -> Seq<u8>
    decreases u,
{
    if u < 0x80 {
        seq![u as u8]
    } else {
        seq![((u % 0x80) + 0x80) as u8] + spec_varint_encoding(u / 0x80)
    }
}

/// Decoding an encoding mid-stream: with `acc` holding bits below `shift`,
/// the remaining groups of `u` land as `u << shift`.
proof fn lemma_varint_round_trip_loop(
    data: Seq<u8>,
    pos: int,
    start: int,
    shift: u64,
    acc: u64,
    u: u64,
)
    requires
        0 <= pos,
        shift <= 63,
        acc < (1u64 << shift),
        u <= (u64::MAX >> shift),
        pos + spec_varint_encoding(u).len() <= data.len(),
        data.subrange(pos, pos + spec_varint_encoding(u).len() as int) == spec_varint_encoding(u),
    ensures
        spec_varint_loop(data, pos, start, shift, acc) == Ok::<(u64, int), ParseError>(
            ((acc | (u << shift)) as u64, pos + spec_varint_encoding(u).len()),
        ),
    decreases u,
{
    let enc = spec_varint_encoding(u);
    let byte = data[pos];
    assert(data.subrange(pos, pos + enc.len() as int)[0] == byte);
    if u < 0x80 {
        assert(byte == u as u8);
        assert(byte & 0x80 == 0 && ((acc | (((byte & 0x7f) as u64) << shift)) as u64) == ((acc | (u
            << shift)) as u64)) by (bit_vector)
            requires
                byte == u as u8,
                u < 0x80,
                shift <= 63,
        ;
    } else {
        assert(byte == ((u % 0x80) + 0x80) as u8);
        let s2 = (shift + 7) as u64;
        let lo = (u % 0x80) as u64;
        let hi = (u / 0x80) as u64;
        let acc2 = (acc | (((byte & 0x7f) as u64) << shift)) as u64;
        assert(byte & 0x80 != 0 && shift <= 56 && acc2 < (1u64 << s2) && hi <= (u64::MAX >> s2)
            && hi < u) by (bit_vector)
            requires
                byte == ((u % 0x80) + 0x80) as u8,
                lo == u % 0x80,
                hi == u / 0x80,
                acc2 == (acc | (((byte & 0x7f) as u64) << shift)) as u64,
                s2 == (shift + 7) as u64,
                u >= 0x80,
                shift <= 63,
                acc < (1u64 << shift),
                u <= (u64::MAX >> shift),
        ;
        assert(data.subrange(pos + 1, pos + 1 + spec_varint_encoding(hi).len() as int)
            == spec_varint_encoding(hi)) by {
            assert(enc == seq![((u % 0x80) + 0x80) as u8] + spec_varint_encoding(hi));
            assert forall|i: int| 0 <= i < spec_varint_encoding(hi).len() implies data.subrange(
                pos + 1,
                pos + 1 + spec_varint_encoding(hi).len() as int,
            )[i] == spec_varint_encoding(hi)[i] by {
                assert(data.subrange(pos, pos + enc.len() as int)[i + 1] == enc[i + 1]);
            }
            assert(data.subrange(pos + 1, pos + 1 + spec_varint_encoding(hi).len() as int)
                =~= spec_varint_encoding(hi));
        }
        lemma_varint_round_trip_loop(data, pos + 1, start, s2, acc2, hi);
        assert((acc2 | (hi << s2)) == (acc | (u << shift))) by (bit_vector)
            requires
                acc2 == (acc | ((((((u % 0x80) + 0x80) as u8) & 0x7f) as u64) << shift)) as u64,
                hi == u / 0x80,
                s2 == (shift + 7) as u64,
                u >= 0x80,
                shift <= 56,
                acc < (1u64 << shift),
                u <= (u64::MAX >> shift),
        ;
    }
}

/// Decoding the LEB128 encoding of any `u64` yields the value back, and the
/// cursor lands exactly past the encoding, whatever follows it.
pub proof fn lemma_varint_round_trip(data: Seq<u8>, pos: int, u: u64)
    requires
        0 <= pos,
        pos + spec_varint_encoding(u).len() <= data.len(),
        data.subrange(pos, pos + spec_varint_encoding(u).len() as int) == spec_varint_encoding(u),
    ensures
        spec_varint(data, pos) == Ok::<(u64, int), ParseError>(
            (u, pos + spec_varint_encoding(u).len()),
        ),
{
    assert(0u64 < (1u64 << 0u64) && u <= (u64::MAX >> 0u64) && ((0u64 | (u << 0u64)) as u64) == u)
        by (bit_vector);
    lemma_varint_round_trip_loop(data, pos, pos, 0, 0, u);
}

/// Builds the LEB128 encoding of `n`.
pub fn encode_unsigned_varint(n: u64) -> (r: Vec<u8>)
    ensures
        r@ == spec_varint_encoding(n),
{
    let mut buf: Vec<u8> = Vec::new();
    let mut value = n;
    loop
        invariant
            spec_varint_encoding(n) == buf@ + spec_varint_encoding(value),
        decreases value,
    {
        let mut byte = (value & 0x7F) as u8;
        proof {
            assert(value & 0x7f == value % 0x80) by (bit_vector);
            assert(value >> 7 == value / 0x80) by (bit_vector);
        }
        let ghost prev = value;
        value >>= 7;
        if value != 0 {
            byte |= 0x80;
            proof {
                assert((prev % 0x80) as u8 | 0x80 == ((prev % 0x80) + 0x80) as u8) by (bit_vector);
            }
        }
        buf.push(byte);
        if value == 0 {
            assert(buf@ =~= spec_varint_encoding(n));
            return buf;
        }
        proof {
            assert(spec_varint_encoding(prev) =~= seq![(((prev % 0x80) + 0x80) as u8)]
                + spec_varint_encoding(prev / 0x80));
            assert(buf@ + spec_varint_encoding(value) =~= spec_varint_encoding(n));
        }
    }
}

/// The zigzag unfolding on 32 bits: even codes are the non-negatives in
/// order, odd codes the negatives.
pub open spec fn spec_zigzag_decode_i32(n: u32) -> i32 {
    if n % 2 == 0 {
        (n / 2) as i32
    } else {
        (-1 - (n / 2) as int) as i32
    }
}

/// The zigzag unfolding on 64 bits.
pub open spec fn spec_zigzag_decode_i64(n: u64) -> i64 {
    if n % 2 == 0 {
        (n / 2) as i64
    } else {
        (-1 - (n / 2) as int) as i64
    }
}

/// The zigzag folding of a 32-bit signed value.
pub open spec fn spec_zigzag_encode_i32(m: i32) -> u32 {
    if m >= 0 {
        (2 * (m as int)) as u32
    } else {
        ((-2) * (m as int) - 1) as u32
    }
}

/// The zigzag folding of a 64-bit signed value.
pub open spec fn spec_zigzag_encode_i64(m: i64) -> u64 {
    if m >= 0 {
        (2 * (m as int)) as u64
    } else {
        ((-2) * (m as int) - 1) as u64
    }
}

/// Unfolds a zigzag-coded 32-bit value.
pub fn zigzag_decode_i32(n: u32) -> (r: i32)
    ensures
        r == spec_zigzag_decode_i32(n),
{
    proof {
        assert(n >> 1 == n / 2 && n & 1 == n % 2 && n >> 1 <= 0x7fffffff) by (bit_vector);
    }
    let half = (n >> 1) as i32;
    let low = (n & 1) as i32;
    let neg = -low;
    let r = half ^ neg;
    proof {
        assert(half ^ neg == (if neg == -1i32 {
            ((-1 - half as int) as i32)
        } else {
            half
        })) by (bit_vector)
            requires
                0 <= half <= 0x7fffffff,
                neg == -1i32 || neg == 0i32,
        ;
    }
    r
}

/// Unfolds a zigzag-coded 64-bit value.
pub fn zigzag_decode_i64(n: u64) -> (r: i64)
    ensures
        r == spec_zigzag_decode_i64(n),
{
    proof {
        assert(n >> 1 == n / 2 && n & 1 == n % 2 && n >> 1 <= 0x7fffffffffffffff) by (bit_vector);
    }
    let half = (n >> 1) as i64;
    let low = (n & 1) as i64;
    let neg = -low;
    let r = half ^ neg;
    proof {
        assert(half ^ neg == (if neg == -1i64 {
            ((-1 - half as int) as i64)
        } else {
            half
        })) by (bit_vector)
            requires
                0 <= half <= 0x7fffffffffffffff,
                neg == -1i64 || neg == 0i64,
        ;
    }
    r
}

/// Zigzag-decode of zigzag-encode returns the value, on 32 bits.
pub proof fn lemma_zigzag_round_trip_i32(m: i32)
    ensures
        spec_zigzag_decode_i32(spec_zigzag_encode_i32(m)) == m,
{
}

/// Zigzag-decode of zigzag-encode returns the value, on 64 bits.
pub proof fn lemma_zigzag_round_trip_i64(m: i64)
    ensures
        spec_zigzag_decode_i64(spec_zigzag_encode_i64(m)) == m,
{
}

/// Reads a varint and unfolds it as a zigzag-coded 32-bit value (the varint
/// is truncated to its low 32 bits first, as the wire format prescribes).
pub fn read_zigzag_i32(data: &[u8], pos: &mut usize) -> (r: Result<i32, ParseError>)
    ensures
        ({
            let sp = spec_varint(data@, *old(pos) as int);
            match r {
                Ok(v) => sp matches Ok((u, p)) && v == spec_zigzag_decode_i32(u as u32)
                    && *final(pos) == p && *final(pos) <= data@.len(),
                Err(e) => sp == Err::<(u64, int), ParseError>(e),
            }
        }),
        *final(pos) >= *old(pos),
        *old(pos) <= data@.len() ==> *final(pos) <= data@.len(),
{
    let raw = read_unsigned_varint(data, pos)?;
    Ok(zigzag_decode_i32(#[verifier::truncate] (raw as u32)))
}

/// Reads a varint and unfolds it as a zigzag-coded 64-bit value.
pub fn read_zigzag_i64(data: &[u8], pos: &mut usize) -> (r: Result<i64, ParseError>)
    ensures
        ({
            let sp = spec_varint(data@, *old(pos) as int);
            match r {
                Ok(v) => sp matches Ok((u, p)) && v == spec_zigzag_decode_i64(u) && *final(pos) == p
                    && *final(pos) <= data@.len(),
                Err(e) => sp == Err::<(u64, int), ParseError>(e),
            }
        }),
        *final(pos) >= *old(pos),
        *old(pos) <= data@.len() ==> *final(pos) <= data@.len(),
{
    let raw = read_unsigned_varint(data, pos)?;
    Ok(zigzag_decode_i64(raw))
}

} // verus!

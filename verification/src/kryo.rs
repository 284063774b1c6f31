//! Field-level readers shared by the event-body decoders: the per-body
//! string-intern table, flag words, fixed-width correlation ids, byte arrays
//! and the list forms built from them.

use vstd::prelude::*;

use crate::error::ParseError;
use crate::varint;
use crate::varint::{spec_varint, spec_zigzag_decode_i32, spec_zigzag_decode_i64};

verus! {

/// Reads `count` items with `step`, threading the position left to right.
pub open spec fn spec_read_count<T>(
    data: Seq<u8>,
    pos: int,
    count: nat,
    step: spec_fn(Seq<u8>, int) -> Result<(T, int), ParseError>,
) -> Result<(Seq<T>, int), ParseError>
    decreases count,
{
    if count == 0 {
        Ok((Seq::empty(), pos))
    } else {
        match spec_read_count(data, pos, (count - 1) as nat, step) {
            Ok((items, p)) => match step(data, p) {
                Ok((item, p2)) => Ok((items.push(item), p2)),
                Err(e) => Err(e),
            },
            Err(e) => Err(e),
        }
    }
}

/// Once a prefix of the count fails, the whole count fails the same way.
pub proof fn lemma_read_count_err<T>(
    data: Seq<u8>,
    pos: int,
    i: nat,
    count: nat,
    step: spec_fn(Seq<u8>, int) -> Result<(T, int), ParseError>,
)
    requires
        i <= count,
        spec_read_count(data, pos, i, step) is Err,
    ensures
        spec_read_count(data, pos, count, step) == spec_read_count(data, pos, i, step),
    decreases count,
{
    if count > i {
        lemma_read_count_err(data, pos, i, (count - 1) as nat, step);
    }
}

/// One character of an interned string: a varint truncated to 32 bits that
/// must be a Unicode scalar value.
pub open spec fn spec_read_char(data: Seq<u8>, pos: int) -> Result<(char, int), ParseError> {
    match spec_varint(data, pos) {
        Ok((v, p)) => {
            let c32 = v as u32;
            if vstd::utf8::is_scalar(c32) {
                Ok((c32 as char, p))
            } else {
                Err(ParseError::InvalidUtf8)
            }
        },
        Err(e) => Err(e),
    }
}

pub open spec fn char_step() -> spec_fn(Seq<u8>, int) -> Result<(char, int), ParseError> {
    |d: Seq<u8>, q: int| spec_read_char(d, q)
}

/// One interned string: a zigzag count introduces a fresh string of that many
/// characters (appended to the table), a negative value is a back-reference
/// into the table.
pub open spec fn spec_read_string(data: Seq<u8>, pos: int, table: Seq<Seq<char>>) -> Result<
    (Seq<char>, int, Seq<Seq<char>>),
    ParseError,
> {
    match spec_varint(data, pos) {
        Err(e) => Err(e),
        Ok((raw64, p)) => {
            let raw = spec_zigzag_decode_i32(raw64 as u32);
            if raw < 0 {
                let index = -1 - raw as int;
                if index < table.len() {
                    Ok((table[index], p, table))
                } else {
                    Err(ParseError::InvalidStringRef { index: index as usize })
                }
            } else {
                match spec_read_count(data, p, raw as nat, char_step()) {
                    Ok((chars, p2)) => Ok((chars, p2, table.push(chars))),
                    Err(e) => Err(e),
                }
            }
        },
    }
}

/// A fresh intern table rejects every back-reference: a negative zigzag
/// value read against an empty table always yields `InvalidStringRef`.
pub proof fn lemma_fresh_table_rejects_backref(data: Seq<u8>, pos: int, raw64: u64, p: int)
    requires
        spec_varint(data, pos) == Ok::<(u64, int), ParseError>((raw64, p)),
        spec_zigzag_decode_i32(raw64 as u32) < 0,
    ensures
        spec_read_string(data, pos, Seq::<Seq<char>>::empty()) == Err::<
            (Seq<char>, int, Seq<Seq<char>>),
            ParseError,
        >(
            ParseError::InvalidStringRef {
                index: (-1 - spec_zigzag_decode_i32(raw64 as u32) as int) as usize,
            },
        ),
{
}

/// Whether bit `bit` of a flags word marks its field as present: the polarity
/// is inverted, a clear bit means present.
pub open spec fn spec_field_present(flags: u16, bit: u8) -> bool {
    (flags >> bit) & 1 == 0
}

/// With every bit of a flags word set, no field is present, so a decoder
/// consumes nothing beyond the flags word itself.
pub proof fn lemma_all_bits_set_all_absent(bit: u8)
    requires
        bit < 16,
    ensures
        !spec_field_present(0xffff, bit),
{
    let b = bit;
    assert((0xffffu16 >> b) & 1 != 0) by (bit_vector)
        requires
            b < 16,
    ;
}

/// Bit `bit` of `flags`, with the inverted polarity of the wire format.
pub fn is_field_present(flags: u16, bit: u8) -> (r: bool)
    requires
        bit < 16,
    ensures
        r == spec_field_present(flags, bit),
{
    (flags >> bit) & 1 == 0
}

/// What reading the one-byte varint flags word yields.
pub open spec fn spec_read_flags_byte(data: Seq<u8>, pos: int) -> Result<(u8, int), ParseError> {
    match spec_varint(data, pos) {
        Ok((v, p)) => Ok((v as u8, p)),
        Err(e) => Err(e),
    }
}

/// Reads a flags word coded as an unsigned varint, keeping its low byte.
pub fn read_flags_byte(data: &[u8], pos: &mut usize) -> (r: Result<u8, ParseError>)
    ensures
        ({
            let sp = spec_read_flags_byte(data@, *old(pos) as int);
            match r {
                Ok(v) => sp == Ok::<(u8, int), ParseError>((v, *final(pos) as int)) && *final(pos)
                    <= data@.len(),
                Err(e) => sp == Err::<(u8, int), ParseError>(e),
            }
        }),
        *final(pos) >= *old(pos),
{
    let v = varint::read_unsigned_varint(data, pos)?;
    Ok(#[verifier::truncate] (v as u8))
}

/// What reading a fixed big-endian 16-bit flags word yields.
pub open spec fn spec_read_flags_u16_be(data: Seq<u8>, pos: int) -> Result<(u16, int), ParseError> {
    if pos + 2 > data.len() {
        Err(ParseError::UnexpectedEof { offset: pos as usize })
    } else {
        Ok(((((data[pos] as u16) << 8) | (data[pos + 1] as u16)) as u16, pos + 2))
    }
}

/// Reads a flags word coded as two fixed big-endian bytes.
pub fn read_flags_u16_be(data: &[u8], pos: &mut usize) -> (r: Result<u16, ParseError>)
    requires
        *old(pos) <= data@.len(),
    ensures
        ({
            let sp = spec_read_flags_u16_be(data@, *old(pos) as int);
            match r {
                Ok(v) => sp == Ok::<(u16, int), ParseError>((v, *final(pos) as int)) && *final(pos)
                    <= data@.len(),
                Err(e) => sp == Err::<(u16, int), ParseError>(e) && *final(pos) == *old(pos),
            }
        }),
        *final(pos) >= *old(pos),
{
    if data.len() - *pos < 2 {
        return Err(ParseError::UnexpectedEof { offset: *pos });
    }
    let hi = data[*pos];
    let lo = data[*pos + 1];
    *pos += 2;
    Ok(((hi as u16) << 8) | (lo as u16))
}

/// The unsigned value of eight little-endian bytes at `pos`.
pub open spec fn spec_le64_at(data: Seq<u8>, pos: int) -> u64 {
    ((data[pos] as u64) | ((data[pos + 1] as u64) << 8) | ((data[pos + 2] as u64) << 16) | ((data[
        pos + 3] as u64) << 24) | ((data[pos + 4] as u64) << 32) | ((data[pos + 5] as u64) << 40)
        | ((data[pos + 6] as u64) << 48) | ((data[pos + 7] as u64) << 56)) as u64
}

/// What reading a fixed little-endian 64-bit correlation id yields.
pub open spec fn spec_read_task_id(data: Seq<u8>, pos: int) -> Result<(i64, int), ParseError> {
    if pos + 8 > data.len() {
        Err(ParseError::UnexpectedEof { offset: pos as usize })
    } else {
        Ok((spec_le64_at(data, pos) as i64, pos + 8))
    }
}

/// Reads a correlation id: eight fixed little-endian bytes as a signed value.
pub fn read_task_id(data: &[u8], pos: &mut usize) -> (r: Result<i64, ParseError>)
    requires
        *old(pos) <= data@.len(),
    ensures
        ({
            let sp = spec_read_task_id(data@, *old(pos) as int);
            match r {
                Ok(v) => sp == Ok::<(i64, int), ParseError>((v, *final(pos) as int)) && *final(pos)
                    <= data@.len(),
                Err(e) => sp == Err::<(i64, int), ParseError>(e) && *final(pos) == *old(pos),
            }
        }),
        *final(pos) >= *old(pos),
{
    if data.len() - *pos < 8 {
        return Err(ParseError::UnexpectedEof { offset: *pos });
    }
    let raw: u64 = (data[*pos] as u64) | ((data[*pos + 1] as u64) << 8) | ((data[*pos + 2] as u64)
        << 16) | ((data[*pos + 3] as u64) << 24) | ((data[*pos + 4] as u64) << 32) | ((data[*pos
        + 5] as u64) << 40) | ((data[*pos + 6] as u64) << 48) | ((data[*pos + 7] as u64) << 56);
    *pos += 8;
    Ok(#[verifier::truncate] (raw as i64))
}

/// What reading an enum ordinal (a plain unsigned varint) yields.
pub open spec fn spec_read_enum_ordinal(data: Seq<u8>, pos: int) -> Result<(u64, int), ParseError> {
    spec_varint(data, pos)
}

/// Reads an enum ordinal as an unsigned varint.
pub fn read_enum_ordinal(data: &[u8], pos: &mut usize) -> (r: Result<u64, ParseError>)
    ensures
        ({
            let sp = spec_read_enum_ordinal(data@, *old(pos) as int);
            match r {
                Ok(v) => sp == Ok::<(u64, int), ParseError>((v, *final(pos) as int)) && *final(pos)
                    <= data@.len(),
                Err(e) => sp == Err::<(u64, int), ParseError>(e),
            }
        }),
        *final(pos) >= *old(pos),
{
    varint::read_unsigned_varint(data, pos)
}

/// What reading a length-prefixed byte array yields.
pub open spec fn spec_read_byte_array(data: Seq<u8>, pos: int) -> Result<(Seq<u8>, int), ParseError> {
    match spec_varint(data, pos) {
        Err(e) => Err(e),
        Ok((n, p)) => {
            let len = n as usize;
            if p + len > data.len() {
                Err(ParseError::UnexpectedEof { offset: p as usize })
            } else {
                Ok((data.subrange(p, p + len), p + len))
            }
        },
    }
}

/// Reads a byte array: an unsigned varint length followed by that many raw
/// bytes.
pub fn read_byte_array(data: &[u8], pos: &mut usize) -> (r: Result<Vec<u8>, ParseError>)
    ensures
        ({
            let sp = spec_read_byte_array(data@, *old(pos) as int);
            match r {
                Ok(v) => sp == Ok::<(Seq<u8>, int), ParseError>((v@, *final(pos) as int))
                    && *final(pos) <= data@.len(),
                Err(e) => sp == Err::<(Seq<u8>, int), ParseError>(e),
            }
        }),
        *final(pos) >= *old(pos),
{
    let n = varint::read_unsigned_varint(data, pos)?;
    let len = #[verifier::truncate] (n as usize);
    if len > data.len() - *pos {
        return Err(ParseError::UnexpectedEof { offset: *pos });
    }
    let out = vstd::slice::slice_to_vec(vstd::slice::slice_subrange(data, *pos, *pos + len));
    *pos += len;
    Ok(out)
}

pub open spec fn task_id_step() -> spec_fn(Seq<u8>, int) -> Result<(i64, int), ParseError> {
    |d: Seq<u8>, q: int| spec_read_task_id(d, q)
}

/// What reading a counted list of fixed little-endian 64-bit ids yields.
pub open spec fn spec_read_list_of_i64(data: Seq<u8>, pos: int) -> Result<
    (Seq<i64>, int),
    ParseError,
> {
    match spec_varint(data, pos) {
        Err(e) => Err(e),
        Ok((n, p)) => spec_read_count(data, p, (n as usize) as nat, task_id_step()),
    }
}

/// Reads a varint count followed by that many fixed little-endian ids.
pub fn read_list_of_i64(data: &[u8], pos: &mut usize) -> (r: Result<Vec<i64>, ParseError>)
    ensures
        ({
            let sp = spec_read_list_of_i64(data@, *old(pos) as int);
            match r {
                Ok(v) => sp == Ok::<(Seq<i64>, int), ParseError>((v@, *final(pos) as int))
                    && *final(pos) <= data@.len(),
                Err(e) => sp == Err::<(Seq<i64>, int), ParseError>(e),
            }
        }),
        *final(pos) >= *old(pos),
{
    let n = varint::read_unsigned_varint(data, pos)?;
    let len = #[verifier::truncate] (n as usize);
    let ghost base = *pos as int;
    let mut result: Vec<i64> = Vec::new();
    proof {
        assert(result@ =~= Seq::<i64>::empty());
    }
    let mut i: usize = 0;
    while i < len
        invariant
            i <= len,
            *pos <= data@.len(),
            *pos >= *old(pos),
            spec_varint(data@, *old(pos) as int) == Ok::<(u64, int), ParseError>((n, base)),
            len == n as usize,
            spec_read_count(data@, base, i as nat, task_id_step()) == Ok::<
                (Seq<i64>, int),
                ParseError,
            >((result@, *pos as int)),
        decreases len - i,
    {
        match read_task_id(data, pos) {
            Ok(v) => {
                result.push(v);
            },
            Err(e) => {
                proof {
                    lemma_read_count_err(data@, base, (i + 1) as nat, len as nat, task_id_step());
                }
                return Err(e);
            },
        }
        i += 1;
    }
    Ok(result)
}

pub open spec fn byte_array_step() -> spec_fn(Seq<u8>, int) -> Result<(Seq<u8>, int), ParseError> {
    |d: Seq<u8>, q: int| spec_read_byte_array(d, q)
}

/// What reading a counted list of byte arrays yields.
pub open spec fn spec_read_list_of_byte_arrays(data: Seq<u8>, pos: int) -> Result<
    (Seq<Seq<u8>>, int),
    ParseError,
> {
    match spec_varint(data, pos) {
        Err(e) => Err(e),
        Ok((n, p)) => spec_read_count(data, p, (n as usize) as nat, byte_array_step()),
    }
}

/// Reads a varint count followed by that many byte arrays.
pub fn read_list_of_byte_arrays(data: &[u8], pos: &mut usize) -> (r: Result<
    Vec<Vec<u8>>,
    ParseError,
>)
    ensures
        ({
            let sp = spec_read_list_of_byte_arrays(data@, *old(pos) as int);
            match r {
                Ok(v) => sp == Ok::<(Seq<Seq<u8>>, int), ParseError>(
                    (v.deep_view(), *final(pos) as int),
                ) && *final(pos) <= data@.len(),
                Err(e) => sp == Err::<(Seq<Seq<u8>>, int), ParseError>(e),
            }
        }),
        *final(pos) >= *old(pos),
{
    let n = varint::read_unsigned_varint(data, pos)?;
    let len = #[verifier::truncate] (n as usize);
    let ghost base = *pos as int;
    let mut result: Vec<Vec<u8>> = Vec::new();
    proof {
        assert(result.deep_view() =~= Seq::<Seq<u8>>::empty());
    }
    let mut i: usize = 0;
    while i < len
        invariant
            i <= len,
            *pos <= data@.len(),
            *pos >= *old(pos),
            spec_varint(data@, *old(pos) as int) == Ok::<(u64, int), ParseError>((n, base)),
            len == n as usize,
            spec_read_count(data@, base, i as nat, byte_array_step()) == Ok::<
                (Seq<Seq<u8>>, int),
                ParseError,
            >((result.deep_view(), *pos as int)),
        decreases len - i,
    {
        match read_byte_array(data, pos) {
            Ok(v) => {
                let ghost prev = result.deep_view();
                let ghost item = v@;
                proof {
                    assert(v.deep_view() =~= item);
                }
                result.push(v);
                proof {
                    assert(result.deep_view() =~= prev.push(item));
                }
            },
            Err(e) => {
                proof {
                    lemma_read_count_err(
                        data@,
                        base,
                        (i + 1) as nat,
                        len as nat,
                        byte_array_step(),
                    );
                }
                return Err(e);
            },
        }
        i += 1;
    }
    Ok(result)
}

pub open spec fn varint_i32_step() -> spec_fn(Seq<u8>, int) -> Result<(i32, int), ParseError> {
    |d: Seq<u8>, q: int| spec_read_positive_varint_i32(d, q)
}

/// What reading an unsigned varint kept as a 64-bit signed value yields.
pub open spec fn spec_read_positive_varint_i64(data: Seq<u8>, pos: int) -> Result<
    (i64, int),
    ParseError,
> {
    match spec_varint(data, pos) {
        Ok((v, p)) => Ok((v as i64, p)),
        Err(e) => Err(e),
    }
}

/// Reads an unsigned varint as a 64-bit signed value (the cast reinterprets
/// the bits, recovering values coded with the positive-optimised layout).
pub fn read_positive_varint_i64(data: &[u8], pos: &mut usize) -> (r: Result<i64, ParseError>)
    ensures
        ({
            let sp = spec_read_positive_varint_i64(data@, *old(pos) as int);
            match r {
                Ok(v) => sp == Ok::<(i64, int), ParseError>((v, *final(pos) as int)) && *final(pos)
                    <= data@.len(),
                Err(e) => sp == Err::<(i64, int), ParseError>(e),
            }
        }),
        *final(pos) >= *old(pos),
{
    let v = varint::read_unsigned_varint(data, pos)?;
    Ok(#[verifier::truncate] (v as i64))
}

/// What reading an unsigned varint truncated to a 32-bit signed value yields.
pub open spec fn spec_read_positive_varint_i32(data: Seq<u8>, pos: int) -> Result<
    (i32, int),
    ParseError,
> {
    match spec_varint(data, pos) {
        Ok((v, p)) => Ok((v as i32, p)),
        Err(e) => Err(e),
    }
}

/// Reads an unsigned varint as a 32-bit signed value; the truncation
/// recovers negative values coded as their unsigned 32-bit representation.
pub fn read_positive_varint_i32(data: &[u8], pos: &mut usize) -> (r: Result<i32, ParseError>)
    ensures
        ({
            let sp = spec_read_positive_varint_i32(data@, *old(pos) as int);
            match r {
                Ok(v) => sp == Ok::<(i32, int), ParseError>((v, *final(pos) as int)) && *final(pos)
                    <= data@.len(),
                Err(e) => sp == Err::<(i32, int), ParseError>(e),
            }
        }),
        *final(pos) >= *old(pos),
{
    let v = varint::read_unsigned_varint(data, pos)?;
    Ok(#[verifier::truncate] (v as i32))
}

/// What reading a counted list of positive-optimised 32-bit ints yields.
pub open spec fn spec_read_list_of_positive_varint_i32(data: Seq<u8>, pos: int) -> Result<
    (Seq<i32>, int),
    ParseError,
> {
    match spec_varint(data, pos) {
        Err(e) => Err(e),
        Ok((n, p)) => spec_read_count(data, p, (n as usize) as nat, varint_i32_step()),
    }
}

/// Reads a varint count followed by that many unsigned varints as i32.
pub fn read_list_of_positive_varint_i32(data: &[u8], pos: &mut usize) -> (r: Result<
    Vec<i32>,
    ParseError,
>)
    ensures
        ({
            let sp = spec_read_list_of_positive_varint_i32(data@, *old(pos) as int);
            match r {
                Ok(v) => sp == Ok::<(Seq<i32>, int), ParseError>((v@, *final(pos) as int))
                    && *final(pos) <= data@.len(),
                Err(e) => sp == Err::<(Seq<i32>, int), ParseError>(e),
            }
        }),
        *final(pos) >= *old(pos),
{
    let n = varint::read_unsigned_varint(data, pos)?;
    let len = #[verifier::truncate] (n as usize);
    let ghost base = *pos as int;
    let mut result: Vec<i32> = Vec::new();
    proof {
        assert(result@ =~= Seq::<i32>::empty());
    }
    let mut i: usize = 0;
    while i < len
        invariant
            i <= len,
            *pos <= data@.len(),
            *pos >= *old(pos),
            spec_varint(data@, *old(pos) as int) == Ok::<(u64, int), ParseError>((n, base)),
            len == n as usize,
            spec_read_count(data@, base, i as nat, varint_i32_step()) == Ok::<
                (Seq<i32>, int),
                ParseError,
            >((result@, *pos as int)),
        decreases len - i,
    {
        match read_positive_varint_i32(data, pos) {
            Ok(v) => {
                result.push(v);
            },
            Err(e) => {
                proof {
                    lemma_read_count_err(
                        data@,
                        base,
                        (i + 1) as nat,
                        len as nat,
                        varint_i32_step(),
                    );
                }
                return Err(e);
            },
        }
        i += 1;
    }
    Ok(result)
}

pub open spec fn list_i32_step() -> spec_fn(Seq<u8>, int) -> Result<(Seq<i32>, int), ParseError> {
    |d: Seq<u8>, q: int| spec_read_list_of_positive_varint_i32(d, q)
}

/// What reading a counted list of lists of 32-bit ints yields.
pub open spec fn spec_read_list_of_list_of_i32(data: Seq<u8>, pos: int) -> Result<
    (Seq<Seq<i32>>, int),
    ParseError,
> {
    match spec_varint(data, pos) {
        Err(e) => Err(e),
        Ok((n, p)) => spec_read_count(data, p, (n as usize) as nat, list_i32_step()),
    }
}

/// Reads a varint count followed by that many i32 lists.
pub fn read_list_of_list_of_i32(data: &[u8], pos: &mut usize) -> (r: Result<
    Vec<Vec<i32>>,
    ParseError,
>)
    ensures
        ({
            let sp = spec_read_list_of_list_of_i32(data@, *old(pos) as int);
            match r {
                Ok(v) => sp == Ok::<(Seq<Seq<i32>>, int), ParseError>(
                    (v.deep_view(), *final(pos) as int),
                ) && *final(pos) <= data@.len(),
                Err(e) => sp == Err::<(Seq<Seq<i32>>, int), ParseError>(e),
            }
        }),
        *final(pos) >= *old(pos),
{
    let n = varint::read_unsigned_varint(data, pos)?;
    let len = #[verifier::truncate] (n as usize);
    let ghost base = *pos as int;
    let mut result: Vec<Vec<i32>> = Vec::new();
    proof {
        assert(result.deep_view() =~= Seq::<Seq<i32>>::empty());
    }
    let mut i: usize = 0;
    while i < len
        invariant
            i <= len,
            *pos <= data@.len(),
            *pos >= *old(pos),
            spec_varint(data@, *old(pos) as int) == Ok::<(u64, int), ParseError>((n, base)),
            len == n as usize,
            spec_read_count(data@, base, i as nat, list_i32_step()) == Ok::<
                (Seq<Seq<i32>>, int),
                ParseError,
            >((result.deep_view(), *pos as int)),
        decreases len - i,
    {
        match read_list_of_positive_varint_i32(data, pos) {
            Ok(v) => {
                let ghost prev = result.deep_view();
                let ghost item = v@;
                proof {
                    assert(v.deep_view() =~= item);
                }
                result.push(v);
                proof {
                    assert(result.deep_view() =~= prev.push(item));
                }
            },
            Err(e) => {
                proof {
                    lemma_read_count_err(data@, base, (i + 1) as nat, len as nat, list_i32_step());
                }
                return Err(e);
            },
        }
        i += 1;
    }
    Ok(result)
}

/// Reads a varint and unfolds it as a zigzag-coded 64-bit value; the form
/// events use for ids carried as zigzag varints.
pub fn read_zigzag_i64(data: &[u8], pos: &mut usize) -> (r: Result<i64, ParseError>)
    ensures
        ({
            let sp = spec_varint(data@, *old(pos) as int);
            match r {
                Ok(v) => sp matches Ok((u, p)) && v == spec_zigzag_decode_i64(u) && *final(pos) == p
                    && *final(pos) <= data@.len(),
                Err(e) => sp == Err::<(u64, int), ParseError>(e),
            }
        }),
        *final(pos) >= *old(pos),
{
    varint::read_zigzag_i64(data, pos)
}

/// Builds the wire form of a zigzag-coded 64-bit value: the zigzag folding,
/// LEB128-encoded.
pub fn encode_zigzag_i64(n: i64) -> (r: Vec<u8>)
    ensures
        r@ == varint::spec_varint_encoding(varint::spec_zigzag_encode_i64(n)),
{
    proof {
        assert(((n << 1) ^ (n >> 63)) as u64 == (if n >= 0 {
            (2 * (n as int)) as u64
        } else {
            ((-2) * (n as int) - 1) as u64
        })) by (bit_vector);
    }
    let zigzag = #[verifier::truncate] (((n << 1) ^ (n >> 63)) as u64);
    varint::encode_unsigned_varint(zigzag)
}

/// Re-export of the shared varint encoder under the name the wire layer
/// uses.
pub fn encode_unsigned_varint(n: u64) -> (r: Vec<u8>)
    ensures
        r@ == varint::spec_varint_encoding(n),
{
    varint::encode_unsigned_varint(n)
}

/// The per-body string dictionary: an ordered list of the strings read so
/// far, addressed by back-references.
pub struct StringInternTable {
    strings: Vec<String>,
}

impl View for StringInternTable {
    type V = Seq<Seq<char>>;

    closed spec fn view(&self) -> Seq<Seq<char>> {
        self.strings.deep_view()
    }
}

/// Relies on char::from_u32: `Some` exactly for Unicode scalar values, and
/// the character carries that code.
#[verifier::external_body]
fn char_from_u32(v: u32) -> (r: Option<char>)
    ensures
        r is Some <==> vstd::utf8::is_scalar(v),
        r matches Some(c) ==> c == v as char,
{
    char::from_u32(v)
}

/// Relies on String::push: appends exactly the one character.
#[verifier::external_body]
fn string_push(s: &mut String, c: char)
    ensures
        final(s)@ == old(s)@.push(c),
{
    s.push(c);
}

impl StringInternTable {
    /// A fresh, empty table.
    pub fn new() -> (r: Self)
        ensures
            r@ == Seq::<Seq<char>>::empty(),
    {
        let r = StringInternTable { strings: Vec::new() };
        proof {
            assert(r.strings.deep_view() =~= Seq::<Seq<char>>::empty());
        }
        r
    }

    /// Reads one interned string: a non-negative zigzag value is a character
    /// count introducing a fresh string (appended to the table), a negative
    /// one a back-reference `-1 - value` into the table.
    pub fn read_string(&mut self, data: &[u8], pos: &mut usize) -> (r: Result<String, ParseError>)
        ensures
            ({
                let sp = spec_read_string(data@, *old(pos) as int, old(self)@);
                match r {
                    Ok(s) => sp matches Ok((cs, p, t)) && s@ == cs && *final(pos) == p
                        && final(self)@ == t && *final(pos) <= data@.len(),
                    Err(e) => sp == Err::<(Seq<char>, int, Seq<Seq<char>>), ParseError>(e),
                }
            }),
            *final(pos) >= *old(pos),
    {
        let raw = varint::read_zigzag_i32(data, pos)?;
        if raw < 0 {
            let index = (-1 - raw) as usize;
            if index < self.strings.len() {
                let s = self.strings[index].clone();
                Ok(s)
            } else {
                Err(ParseError::InvalidStringRef { index })
            }
        } else {
            let count = raw as usize;
            let ghost base = *pos as int;
            let mut s = String::new();
            proof {
                assert(s@ =~= Seq::<char>::empty());
            }
            let mut i: usize = 0;
            while i < count
                invariant
                    i <= count,
                    *pos <= data@.len(),
                    *pos >= *old(pos),
                    ({
                        let sp = spec_varint(data@, *old(pos) as int);
                        sp matches Ok((u, p)) && spec_zigzag_decode_i32(u as u32) == raw && p
                            == base
                    }),
                    raw >= 0,
                    count == raw as usize,
                    self@ == old(self)@,
                    spec_read_count(data@, base, i as nat, char_step()) == Ok::<
                        (Seq<char>, int),
                        ParseError,
                    >((s@, *pos as int)),
                decreases count - i,
            {
                let ghost prev_pos = *pos as int;
                match varint::read_unsigned_varint(data, pos) {
                    Ok(v) => {
                        let c32 = #[verifier::truncate] (v as u32);
                        match char_from_u32(c32) {
                            Some(c) => {
                                string_push(&mut s, c);
                                proof {
                                    assert(char_step()(data@, prev_pos) == Ok::<
                                        (char, int),
                                        ParseError,
                                    >((c, *pos as int)));
                                }
                            },
                            None => {
                                proof {
                                    assert(char_step()(data@, prev_pos) == Err::<
                                        (char, int),
                                        ParseError,
                                    >(ParseError::InvalidUtf8));
                                    lemma_read_count_err(
                                        data@,
                                        base,
                                        (i + 1) as nat,
                                        count as nat,
                                        char_step(),
                                    );
                                }
                                return Err(ParseError::InvalidUtf8);
                            },
                        }
                    },
                    Err(e) => {
                        proof {
                            assert(char_step()(data@, prev_pos) == Err::<(char, int), ParseError>(
                                e,
                            ));
                            lemma_read_count_err(
                                data@,
                                base,
                                (i + 1) as nat,
                                count as nat,
                                char_step(),
                            );
                        }
                        return Err(e);
                    },
                }
                i += 1;
            }
            let copy = s.clone();
            self.strings.push(s);
            proof {
                assert(self.strings.deep_view() =~= old(self)@.push(copy@));
            }
            Ok(copy)
        }
    }
}

pub open spec fn interned_string_result(
    data: Seq<u8>,
    pos: int,
    count: nat,
    table: Seq<Seq<char>>,
) -> Result<(Seq<Seq<char>>, int, Seq<Seq<char>>), ParseError>
    decreases count,
{
    if count == 0 {
        Ok((Seq::empty(), pos, table))
    } else {
        match interned_string_result(data, pos, (count - 1) as nat, table) {
            Ok((items, p, t)) => match spec_read_string(data, p, t) {
                Ok((s, p2, t2)) => Ok((items.push(s), p2, t2)),
                Err(e) => Err(e),
            },
            Err(e) => Err(e),
        }
    }
}

/// Once a prefix of an interned-string count fails, the whole count fails
/// the same way.
pub proof fn lemma_interned_count_err(
    data: Seq<u8>,
    pos: int,
    i: nat,
    count: nat,
    table: Seq<Seq<char>>,
)
    requires
        i <= count,
        interned_string_result(data, pos, i, table) is Err,
    ensures
        interned_string_result(data, pos, count, table) == interned_string_result(
            data,
            pos,
            i,
            table,
        ),
    decreases count,
{
    if count > i {
        lemma_interned_count_err(data, pos, i, (count - 1) as nat, table);
    }
}

/// What reading a counted list of interned strings yields, threading the
/// intern table through the items.
pub open spec fn spec_read_list_of_interned_strings(
    data: Seq<u8>,
    pos: int,
    table: Seq<Seq<char>>,
) -> Result<(Seq<Seq<char>>, int, Seq<Seq<char>>), ParseError> {
    match spec_varint(data, pos) {
        Err(e) => Err(e),
        Ok((n, p)) => interned_string_result(data, p, (n as usize) as nat, table),
    }
}

/// Reads a varint count followed by that many interned strings.
pub fn read_list_of_interned_strings(
    data: &[u8],
    pos: &mut usize,
    table: &mut StringInternTable,
) -> (r: Result<Vec<String>, ParseError>)
    ensures
        ({
            let sp = spec_read_list_of_interned_strings(data@, *old(pos) as int, old(table)@);
            match r {
                Ok(v) => sp matches Ok((items, p, t)) && v.deep_view() == items && *final(pos) == p
                    && final(table)@ == t && *final(pos) <= data@.len(),
                Err(e) => sp == Err::<(Seq<Seq<char>>, int, Seq<Seq<char>>), ParseError>(e),
            }
        }),
        *final(pos) >= *old(pos),
{
    let n = varint::read_unsigned_varint(data, pos)?;
    let len = #[verifier::truncate] (n as usize);
    let ghost base = *pos as int;
    let ghost table0 = table@;
    let mut result: Vec<String> = Vec::new();
    proof {
        assert(result.deep_view() =~= Seq::<Seq<char>>::empty());
    }
    let mut i: usize = 0;
    while i < len
        invariant
            i <= len,
            *pos <= data@.len(),
            *pos >= *old(pos),
            spec_varint(data@, *old(pos) as int) == Ok::<(u64, int), ParseError>((n, base)),
            len == n as usize,
            table0 == old(table)@,
            interned_string_result(data@, base, i as nat, table0) == Ok::<
                (Seq<Seq<char>>, int, Seq<Seq<char>>),
                ParseError,
            >((result.deep_view(), *pos as int, table@)),
        decreases len - i,
    {
        match table.read_string(data, pos) {
            Ok(s) => {
                let ghost prev = result.deep_view();
                let ghost item = s@;
                result.push(s);
                proof {
                    assert(result.deep_view() =~= prev.push(item));
                }
            },
            Err(e) => {
                proof {
                    lemma_interned_count_err(data@, base, (i + 1) as nat, len as nat, table0);
                }
                return Err(e);
            },
        }
        i += 1;
    }
    Ok(result)
}

/// What reading a zigzag-coded 64-bit varint yields.
pub open spec fn spec_read_zigzag_i64(data: Seq<u8>, pos: int) -> Result<(i64, int), ParseError> {
    match spec_varint(data, pos) {
        Ok((u, p)) => Ok((spec_zigzag_decode_i64(u), p)),
        Err(e) => Err(e),
    }
}

/// What reading a zigzag-coded 32-bit varint yields.
pub open spec fn spec_read_zigzag_i32(data: Seq<u8>, pos: int) -> Result<(i32, int), ParseError> {
    match spec_varint(data, pos) {
        Ok((u, p)) => Ok((spec_zigzag_decode_i32(u as u32), p)),
        Err(e) => Err(e),
    }
}

/// A vector of bytes views the same shallow or deep.
pub broadcast proof fn lemma_vec_u8_deep_view(v: Vec<u8>)
    ensures
        #[trigger] v.deep_view() == v@,
{
    assert(v.deep_view() =~= v@);
}

/// A vector of 64-bit ints views the same shallow or deep.
pub broadcast proof fn lemma_vec_i64_deep_view(v: Vec<i64>)
    ensures
        #[trigger] v.deep_view() == v@,
{
    assert(v.deep_view() =~= v@);
}

/// A vector of 32-bit ints views the same shallow or deep.
pub broadcast proof fn lemma_vec_i32_deep_view(v: Vec<i32>)
    ensures
        #[trigger] v.deep_view() == v@,
{
    assert(v.deep_view() =~= v@);
}

/// An empty vector's deep view is the empty sequence.
pub broadcast proof fn lemma_vec_empty_deep_view<T: DeepView>(v: Vec<T>)
    ensures
        v@.len() == 0 ==> #[trigger] v.deep_view() == Seq::<T::V>::empty(),
{
    if v@.len() == 0 {
        assert(v.deep_view() =~= Seq::<T::V>::empty());
    }
}

pub broadcast group group_deep_view_eq {
    lemma_vec_u8_deep_view,
    lemma_vec_i64_deep_view,
    lemma_vec_i32_deep_view,
    lemma_vec_empty_deep_view,
}

/// Reads `count` composite items with `step`, threading both the position
/// and the intern table left to right.
pub open spec fn spec_read_count_with_table<T>(
    data: Seq<u8>,
    pos: int,
    count: nat,
    table: Seq<Seq<char>>,
    step: spec_fn(Seq<u8>, int, Seq<Seq<char>>) -> Result<(T, int, Seq<Seq<char>>), ParseError>,
) -> Result<(Seq<T>, int, Seq<Seq<char>>), ParseError>
    decreases count,
{
    if count == 0 {
        Ok((Seq::empty(), pos, table))
    } else {
        match spec_read_count_with_table(data, pos, (count - 1) as nat, table, step) {
            Ok((items, p, t)) => match step(data, p, t) {
                Ok((item, p2, t2)) => Ok((items.push(item), p2, t2)),
                Err(e) => Err(e),
            },
            Err(e) => Err(e),
        }
    }
}

/// Once a prefix of such a count fails, the whole count fails the same way.
pub proof fn lemma_read_count_with_table_err<T>(
    data: Seq<u8>,
    pos: int,
    i: nat,
    count: nat,
    table: Seq<Seq<char>>,
    step: spec_fn(Seq<u8>, int, Seq<Seq<char>>) -> Result<(T, int, Seq<Seq<char>>), ParseError>,
)
    requires
        i <= count,
        spec_read_count_with_table(data, pos, i, table, step) is Err,
    ensures
        spec_read_count_with_table(data, pos, count, table, step) == spec_read_count_with_table(
            data,
            pos,
            i,
            table,
            step,
        ),
    decreases count,
{
    if count > i {
        lemma_read_count_with_table_err(data, pos, i, (count - 1) as nat, table, step);
    }
}

/// Relies on str::from_utf8: `Some` exactly for valid UTF-8, whose character
/// sequence is the bytes' decoding.
#[verifier::external_body]
pub(crate) fn bytes_to_str(v: &[u8]) -> (r: Option<&str>)
    ensures
        r matches Some(s) ==> vstd::utf8::valid_utf8(v@) && s@ == vstd::utf8::decode_utf8(v@),
        r is None ==> !vstd::utf8::valid_utf8(v@),
{
    std::str::from_utf8(v).ok()
}

} // verus!

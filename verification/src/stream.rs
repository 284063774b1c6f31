//! The primitive-level stream reader of the early event layout: plain
//! varints, length-prefixed or back-referenced strings, and millisecond
//! timestamps validated against the calendar's representable range.

use vstd::prelude::*;

use crate::error::ParseError;
use crate::varint;
use crate::varint::spec_varint;

verus! {

/// One primitive of the early layout. A timestamp carries its raw
/// millisecond value.
#[derive(Debug, Clone, PartialEq)]
pub enum Primitive {
    Varint(u64),
    String(String),
    StringRef(u32),
    Timestamp(u64),
}

/// The mathematical image of a primitive.
pub ghost enum SpecPrimitive {
    Varint(u64),
    String(Seq<char>),
    StringRef(u32),
    Timestamp(u64),
}

impl DeepView for Primitive {
    type V = SpecPrimitive;

    open spec fn deep_view(&self) -> SpecPrimitive {
        match self {
            Primitive::Varint(v) => SpecPrimitive::Varint(*v),
            Primitive::String(s) => SpecPrimitive::String(s@),
            Primitive::StringRef(r) => SpecPrimitive::StringRef(*r),
            Primitive::Timestamp(t) => SpecPrimitive::Timestamp(*t),
        }
    }
}

/// Whether the calendar can represent the second-and-nanosecond pair.
/// Representability is a function of the pair alone.
pub uninterp spec fn spec_timestamp_valid(secs: i64, nanos: u32) -> bool;

/// Relies on chrono::DateTime::<Utc>::from_timestamp: `Some` exactly when
/// the pair lies in the representable range; which pairs those are depends
/// on the arguments alone.
#[verifier::external_body]
pub(crate) fn timestamp_in_range(secs: i64, nanos: u32) -> (r: bool)
    ensures
        r == spec_timestamp_valid(secs, nanos),
{
    chrono::DateTime::<chrono::Utc>::from_timestamp(secs, nanos).is_some()
}

/// What reading a millisecond timestamp yields: its varint value when the
/// calendar can hold it, `InvalidTimestamp` otherwise.
pub open spec fn spec_read_timestamp(data: Seq<u8>, pos: int) -> Result<(u64, int), ParseError> {
    match spec_varint(data, pos) {
        Err(e) => Err(e),
        Ok((val, p)) => {
            if spec_timestamp_valid((val / 1000) as i64, ((val % 1000) * 1_000_000) as u32) {
                Ok((val, p))
            } else {
                Err(ParseError::InvalidTimestamp)
            }
        },
    }
}

/// What reading a string primitive yields: an even varint introduces that
/// many halved bytes of UTF-8, an odd one is a back-reference.
pub open spec fn spec_read_string_prim(data: Seq<u8>, pos: int) -> Result<
    (SpecPrimitive, int),
    ParseError,
> {
    match spec_varint(data, pos) {
        Err(e) => Err(e),
        Ok((val, p)) => {
            if val & 1 == 1 {
                Ok((SpecPrimitive::StringRef((val >> 1) as u32), p))
            } else {
                let len = ((val >> 1) as usize) as int;
                if p + len > data.len() {
                    Err(ParseError::UnexpectedEof { offset: p as usize })
                } else if !vstd::utf8::valid_utf8(data.subrange(p, p + len)) {
                    Err(ParseError::InvalidUtf8)
                } else {
                    Ok(
                        (
                            SpecPrimitive::String(vstd::utf8::decode_utf8(data.subrange(p, p + len))),
                            p + len,
                        ),
                    )
                }
            }
        },
    }
}

/// A forward-only reader of the primitive stream.
pub struct StreamDecoder<'a> {
    data: &'a [u8],
    offset: usize,
}

/// The reader's state: the stream and the read position.
pub ghost struct SpecStream {
    pub data: Seq<u8>,
    pub offset: int,
}

impl<'a> View for StreamDecoder<'a> {
    type V = SpecStream;

    closed spec fn view(&self) -> SpecStream {
        SpecStream { data: self.data@, offset: self.offset as int }
    }
}

impl<'a> StreamDecoder<'a> {
    /// The position always lies inside the stream.
    pub open spec fn wf(&self) -> bool {
        0 <= self@.offset <= self@.data.len()
    }

    pub fn new(data: &'a [u8]) -> (r: Self)
        ensures
            r@ == (SpecStream { data: data@, offset: 0 }),
            r.wf(),
    {
        StreamDecoder { data, offset: 0 }
    }

    /// Locates and inflates the embedded gzip stream, tolerating prefix
    /// bytes before the signature.
    pub fn decompress(raw_data: &[u8]) -> (r: Result<Vec<u8>, ParseError>)
        ensures
            ({
                let sp = crate::decompress::spec_gunzip(
                    raw_data@.skip(crate::decompress::spec_gzip_start(raw_data@)),
                );
                match r {
                    Ok(v) => sp == Some(v@),
                    Err(e) => e == ParseError::InvalidGzip && sp == None::<Seq<u8>>,
                }
            }),
    {
        crate::decompress::Decompressor::decompress(raw_data)
    }

    /// Reads one unsigned LEB128 varint.
    pub fn read_leb128(&mut self) -> (r: Result<u64, ParseError>)
        requires
            old(self).wf(),
        ensures
            final(self).wf(),
            final(self)@.data == old(self)@.data,
            final(self)@.offset >= old(self)@.offset,
            ({
                let sp = spec_varint(old(self)@.data, old(self)@.offset);
                match r {
                    Ok(v) => sp == Ok::<(u64, int), ParseError>((v, final(self)@.offset)),
                    Err(e) => sp == Err::<(u64, int), ParseError>(e),
                }
            }),
    {
        varint::read_unsigned_varint(self.data, &mut self.offset)
    }

    /// Reads one varint; the name the early layout used.
    pub fn read_raw_varint(&mut self) -> (r: Result<u64, ParseError>)
        requires
            old(self).wf(),
        ensures
            final(self).wf(),
            final(self)@.data == old(self)@.data,
            final(self)@.offset >= old(self)@.offset,
            ({
                let sp = spec_varint(old(self)@.data, old(self)@.offset);
                match r {
                    Ok(v) => sp == Ok::<(u64, int), ParseError>((v, final(self)@.offset)),
                    Err(e) => sp == Err::<(u64, int), ParseError>(e),
                }
            }),
    {
        self.read_leb128()
    }

    /// Reads one varint, wrapped as a primitive.
    pub fn read_varint(&mut self) -> (r: Result<Primitive, ParseError>)
        requires
            old(self).wf(),
        ensures
            final(self).wf(),
            final(self)@.data == old(self)@.data,
            final(self)@.offset >= old(self)@.offset,
            ({
                let sp = spec_varint(old(self)@.data, old(self)@.offset);
                match r {
                    Ok(p) => sp matches Ok((v, q)) && p.deep_view() == SpecPrimitive::Varint(v)
                        && final(self)@.offset == q,
                    Err(e) => sp == Err::<(u64, int), ParseError>(e),
                }
            }),
    {
        let v = self.read_raw_varint()?;
        Ok(Primitive::Varint(v))
    }

    /// Reads `len` raw bytes.
    pub fn read_bytes(&mut self, len: usize) -> (r: Result<&'a [u8], ParseError>)
        requires
            old(self).wf(),
        ensures
            final(self).wf(),
            final(self)@.data == old(self)@.data,
            final(self)@.offset >= old(self)@.offset,
            ({
                let data = old(self)@.data;
                let pos = old(self)@.offset;
                match r {
                    Ok(b) => pos + len <= data.len() && b@ == data.subrange(pos, pos + len)
                        && final(self)@.offset == pos + len,
                    Err(e) => pos + len > data.len() && e == (ParseError::UnexpectedEof {
                        offset: pos as usize,
                    }) && final(self)@ == old(self)@,
                }
            }),
    {
        if len > self.data.len() - self.offset {
            return Err(ParseError::UnexpectedEof { offset: self.offset });
        }
        let bytes = vstd::slice::slice_subrange(self.data, self.offset, self.offset + len);
        self.offset += len;
        Ok(bytes)
    }

    /// Reads one string primitive: the low varint bit picks between a
    /// back-reference and an inline UTF-8 string of half the value's bytes.
    pub fn read_string(&mut self) -> (r: Result<Primitive, ParseError>)
        requires
            old(self).wf(),
        ensures
            final(self).wf(),
            final(self)@.data == old(self)@.data,
            final(self)@.offset >= old(self)@.offset,
            ({
                let sp = spec_read_string_prim(old(self)@.data, old(self)@.offset);
                match r {
                    Ok(p) => sp matches Ok((sv, q)) && p.deep_view() == sv && final(self)@.offset
                        == q,
                    Err(e) => sp == Err::<(SpecPrimitive, int), ParseError>(e),
                }
            }),
    {
        let val = self.read_raw_varint()?;
        let bit = val & 1;
        let shifted = val >> 1;
        if bit == 1 {
            Ok(Primitive::StringRef(#[verifier::truncate] (shifted as u32)))
        } else {
            let len = #[verifier::truncate] (shifted as usize);
            let bytes = self.read_bytes(len)?;
            match crate::kryo::bytes_to_str(bytes) {
                Some(s) => Ok(Primitive::String(s.to_owned())),
                None => Err(ParseError::InvalidUtf8),
            }
        }
    }

    /// Reads one millisecond timestamp, rejecting values the calendar
    /// cannot represent.
    pub fn read_timestamp(&mut self) -> (r: Result<Primitive, ParseError>)
        requires
            old(self).wf(),
        ensures
            final(self).wf(),
            final(self)@.data == old(self)@.data,
            final(self)@.offset >= old(self)@.offset,
            ({
                let sp = spec_read_timestamp(old(self)@.data, old(self)@.offset);
                match r {
                    Ok(p) => sp matches Ok((v, q)) && p.deep_view() == SpecPrimitive::Timestamp(v)
                        && final(self)@.offset == q,
                    Err(e) => sp == Err::<(u64, int), ParseError>(e),
                }
            }),
    {
        let val = self.read_raw_varint()?;
        let secs = (val / 1000) as i64;
        let nanos = #[verifier::truncate] (((val % 1000) * 1_000_000) as u32);
        proof {
            assert((val % 1000) * 1_000_000 < 0x1_0000_0000);
        }
        if timestamp_in_range(secs, nanos) {
            Ok(Primitive::Timestamp(val))
        } else {
            Err(ParseError::InvalidTimestamp)
        }
    }
}

} // verus!

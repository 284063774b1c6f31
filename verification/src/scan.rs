//! The heuristic stream scanner of the earliest prototype: a varint walk
//! that guesses which values are strings, timestamps or plain numbers, and
//! a builder that keeps every string the scan turns up.

use vstd::prelude::*;

use crate::error::ParseError;
use crate::stream::{spec_timestamp_valid, SpecPrimitive};
use crate::varint::spec_varint;

pub use crate::stream::Primitive;

verus! {

/// A payload as the prototype knew it: task records alone.
#[derive(Debug, Clone)]
pub struct BuildScanPayload {
    pub tasks: Vec<TaskExecution>,
}

#[derive(Debug, Clone)]
pub struct TaskExecution {
    pub task_path: String,
}

/// What the heuristic scan yields at `pos`: `None` at the end of input,
/// otherwise one primitive and the position after it. An odd varint is a
/// back-reference; an even one is tried as a string length, then as a
/// millisecond timestamp in the plausible range, then kept as a number.
pub open spec fn spec_scan_next(data: Seq<u8>, pos: int) -> Option<
    Result<(SpecPrimitive, int), ParseError>,
> {
    if pos >= data.len() {
        None
    } else {
        match spec_varint(data, pos) {
            Err(e) => Some(Err(e)),
            Ok((val, p)) => {
                let shifted = val >> 1;
                if val & 1 == 1 {
                    Some(Ok((SpecPrimitive::StringRef(shifted as u32), p)))
                } else if 2 <= shifted <= 500 && p + shifted <= data.len()
                    && vstd::utf8::valid_utf8(data.subrange(p, p + shifted as int)) {
                    Some(
                        Ok(
                            (
                                SpecPrimitive::String(
                                    vstd::utf8::decode_utf8(data.subrange(p, p + shifted as int)),
                                ),
                                p + shifted as int,
                            ),
                        ),
                    )
                } else if 1_600_000_000_000 <= val <= 1_900_000_000_000 && spec_timestamp_valid(
                    (val / 1000) as i64,
                    ((val % 1000) * 1_000_000) as u32,
                ) {
                    Some(Ok((SpecPrimitive::Timestamp(val), p)))
                } else {
                    Some(Ok((SpecPrimitive::Varint(val), p)))
                }
            },
        }
    }
}

/// A forward-only heuristic scanner.
pub struct StreamDecoder<'a> {
    data: &'a [u8],
    offset: usize,
}

/// The scanner's state: the stream and the read position.
pub ghost struct SpecScan {
    pub data: Seq<u8>,
    pub offset: int,
}

impl<'a> View for StreamDecoder<'a> {
    type V = SpecScan;

    closed spec fn view(&self) -> SpecScan {
        SpecScan { data: self.data@, offset: self.offset as int }
    }
}

impl<'a> StreamDecoder<'a> {
    /// The position always lies inside the stream.
    pub open spec fn wf(&self) -> bool {
        0 <= self@.offset <= self@.data.len()
    }

    pub fn new(data: &'a [u8]) -> (r: Self)
        ensures
            r@ == (SpecScan { data: data@, offset: 0 }),
            r.wf(),
    {
        StreamDecoder { data, offset: 0 }
    }

    /// Locates and inflates the embedded gzip stream, tolerating prefix
    /// bytes before the signature.
    pub fn decompress(raw_data: &[u8]) -> (r: Result<Vec<u8>, ParseError>)
        ensures
            ({
                let sp = crate::decompress::spec_gunzip(
                    raw_data@.skip(crate::decompress::spec_gzip_start(raw_data@)),
                );
                match r {
                    Ok(v) => sp == Some(v@),
                    Err(e) => e == ParseError::InvalidGzip && sp == None::<Seq<u8>>,
                }
            }),
    {
        crate::decompress::Decompressor::decompress(raw_data)
    }

    /// Reads one unsigned LEB128 varint.
    pub fn read_leb128(&mut self) -> (r: Result<u64, ParseError>)
        requires
            old(self).wf(),
        ensures
            final(self).wf(),
            final(self)@.data == old(self)@.data,
            final(self)@.offset >= old(self)@.offset,
            ({
                let sp = spec_varint(old(self)@.data, old(self)@.offset);
                match r {
                    Ok(v) => sp == Ok::<(u64, int), ParseError>((v, final(self)@.offset)),
                    Err(e) => sp == Err::<(u64, int), ParseError>(e),
                }
            }),
    {
        crate::varint::read_unsigned_varint(self.data, &mut self.offset)
    }

    /// The next primitive the heuristic yields, or `None` at the end.
    pub fn next(&mut self) -> (r: Option<Result<Primitive, ParseError>>)
        requires
            old(self).wf(),
        ensures
            final(self).wf(),
            final(self)@.data == old(self)@.data,
            final(self)@.offset >= old(self)@.offset,
            ({
                let sp = spec_scan_next(old(self)@.data, old(self)@.offset);
                match r {
                    None => sp is None && final(self)@ == old(self)@,
                    Some(Ok(p)) => sp matches Some(Ok((sv, q))) && p.deep_view() == sv
                        && final(self)@.offset == q && final(self)@.offset > old(self)@.offset,
                    Some(Err(e)) => sp == Some(Err::<(SpecPrimitive, int), ParseError>(e)),
                }
            }),
    {
        if self.offset >= self.data.len() {
            return None;
        }
        proof {
            crate::varint::lemma_varint_advances(self@.data, self@.offset);
        }
        let val = match crate::varint::read_unsigned_varint(self.data, &mut self.offset) {
            Ok(v) => v,
            Err(e) => {
                return Some(Err(e));
            },
        };
        let shifted = val >> 1;
        if val & 1 == 1 {
            return Some(Ok(Primitive::StringRef(#[verifier::truncate] (shifted as u32))));
        }
        if 2 <= shifted && shifted <= 500 && (shifted as usize) <= self.data.len() - self.offset {
            let len = shifted as usize;
            let bytes = vstd::slice::slice_subrange(self.data, self.offset, self.offset + len);
            match crate::kryo::bytes_to_str(bytes) {
                Some(s) => {
                    let owned = s.to_owned();
                    self.offset += len;
                    return Some(Ok(Primitive::String(owned)));
                },
                None => {},
            }
        }
        if 1_600_000_000_000 <= val && val <= 1_900_000_000_000 {
            let secs = (val / 1000) as i64;
            let nanos = #[verifier::truncate] (((val % 1000) * 1_000_000) as u32);
            proof {
                assert((val % 1000) * 1_000_000 < 0x1_0000_0000);
            }
            if crate::stream::timestamp_in_range(secs, nanos) {
                return Some(Ok(Primitive::Timestamp(val)));
            }
        }
        Some(Ok(Primitive::Varint(val)))
    }
}

/// The dictionary the scan accumulates: every string primitive, in order.
pub open spec fn spec_scan_dict(data: Seq<u8>, pos: int, dict: Seq<Seq<char>>) -> Result<
    Seq<Seq<char>>,
    ParseError,
>
    decreases data.len() - pos
        via spec_scan_dict_decreases
{
    if pos < 0 {
        Err(ParseError::UnexpectedEof { offset: 0 })
    } else {
        match spec_scan_next(data, pos) {
            None => Ok(dict),
            Some(Err(e)) => Err(e),
            Some(Ok((sv, p2))) => {
                if pos < p2 <= data.len() {
                    match sv {
                        SpecPrimitive::String(cs) => spec_scan_dict(data, p2, dict.push(cs)),
                        _ => spec_scan_dict(data, p2, dict),
                    }
                } else {
                    Err(ParseError::UnexpectedEof { offset: pos as usize })
                }
            },
        }
    }
}

#[via_fn]
proof fn spec_scan_dict_decreases(data: Seq<u8>, pos: int, dict: Seq<Seq<char>>) {
}

/// The prototype builder over the heuristic scan.
pub struct PayloadBuilder {
    pub dictionary: Vec<String>,
}

impl PayloadBuilder {
    pub fn new() -> (r: Self)
        ensures
            r.dictionary@.len() == 0,
    {
        PayloadBuilder { dictionary: Vec::new() }
    }

    /// Scans the plaintext, keeping every string primitive in the
    /// dictionary; the payload itself stays empty.
    pub fn build(&mut self, data: &[u8]) -> (r: Result<BuildScanPayload, ParseError>)
        ensures
            ({
                let sp = spec_scan_dict(data@, 0, old(self).dictionary.deep_view());
                match r {
                    Ok(p) => sp matches Ok(d2) && final(self).dictionary.deep_view() == d2
                        && p.tasks@.len() == 0,
                    Err(e) => sp == Err::<Seq<Seq<char>>, ParseError>(e),
                }
            }),
    {
        let mut decoder = StreamDecoder::new(data);
        let payload = BuildScanPayload { tasks: Vec::new() };
        let ghost data0 = data@;
        loop
            invariant_except_break
                decoder.wf(),
                decoder@.data == data0,
                data0 == data@,
                spec_scan_dict(data@, 0, old(self).dictionary.deep_view()) == spec_scan_dict(
                    data@,
                    decoder@.offset,
                    self.dictionary.deep_view(),
                ),
            ensures
                spec_scan_dict(data@, 0, old(self).dictionary.deep_view()) == Ok::<
                    Seq<Seq<char>>,
                    ParseError,
                >(self.dictionary.deep_view()),
            decreases data@.len() - decoder@.offset,
        {
            match decoder.next() {
                None => {
                    break ;
                },
                Some(Err(e)) => {
                    return Err(e);
                },
                Some(Ok(prim)) => {
                    match prim {
                        Primitive::String(s) => {
                            let ghost prev = self.dictionary.deep_view();
                            let ghost item = s@;
                            self.dictionary.push(s);
                            proof {
                                assert(self.dictionary.deep_view() =~= prev.push(item));
                            }
                        },
                        _ => {},
                    }
                },
            }
        }
        Ok(payload)
    }
}

} // verus!

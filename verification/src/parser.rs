//! The early event-id state machine: a loop over tagged primitives that
//! keeps a string dictionary and halts on any id it cannot skip safely,
//! as a wrong guess about a length field would desynchronise the stream.

use vstd::prelude::*;

use crate::error::ParseError;
use crate::models::{spec_empty_payload, BuildScanPayload};
use crate::stream::{spec_read_string_prim, spec_read_timestamp, Primitive, SpecPrimitive,
    StreamDecoder};
use crate::varint::spec_varint;

verus! {

pub const EVENT_TIMESTAMP: u64 = 0;

pub const EVENT_USER_HOST_INFO: u64 = 2;

pub const EVENT_JVM_INFO: u64 = 3;

pub const EVENT_OS_INFO: u64 = 8;

pub const EVENT_DICTIONARY_ADD: u64 = 14;

pub const EVENT_TASK_EXECUTION: u64 = 58;

/// What one loop step of the builder does at `pos` with dictionary `dict`:
/// `None` for a clean end of input, otherwise the dictionary and position
/// after consuming one event, or the error that stops the build.
pub open spec fn spec_build_step(data: Seq<u8>, pos: int, dict: Seq<Seq<char>>) -> Result<
    Option<(Seq<Seq<char>>, int)>,
    ParseError,
> {
    if pos >= data.len() {
        Ok(None)
    } else {
        match spec_varint(data, pos) {
            Err(e) => {
                if e is UnexpectedEof {
                    Ok(None)
                } else {
                    Err(e)
                }
            },
            Ok((id, p)) => {
                if id == EVENT_USER_HOST_INFO {
                    match spec_read_string_prim(data, p) {
                        Err(e) => Err(e),
                        Ok((_u, p2)) => match spec_read_string_prim(data, p2) {
                            Err(e) => Err(e),
                            Ok((_h, p3)) => Ok(Some((dict, p3))),
                        },
                    }
                } else if id == EVENT_TASK_EXECUTION {
                    match spec_read_string_prim(data, p) {
                        Err(e) => Err(e),
                        Ok((_t, p2)) => Ok(Some((dict, p2))),
                    }
                } else if id == EVENT_OS_INFO || id == EVENT_JVM_INFO {
                    match spec_varint(data, p) {
                        Err(e) => Err(e),
                        Ok((len, p2)) => {
                            if p2 + (len as usize) > data.len() {
                                Err(ParseError::UnexpectedEof { offset: p2 as usize })
                            } else {
                                Ok(Some((dict, p2 + (len as usize))))
                            }
                        },
                    }
                } else if id == EVENT_TIMESTAMP {
                    match spec_read_timestamp(data, p) {
                        Err(e) => Err(e),
                        Ok((_ts, p2)) => Ok(Some((dict, p2))),
                    }
                } else if id == EVENT_DICTIONARY_ADD {
                    match spec_read_string_prim(data, p) {
                        Err(e) => Err(e),
                        Ok((sv, p2)) => match sv {
                            SpecPrimitive::String(cs) => Ok(Some((dict.push(cs), p2))),
                            _ => Err(ParseError::UnexpectedPrimitive { expected: "String" }),
                        },
                    }
                } else {
                    Err(ParseError::UnknownEvent { id })
                }
            },
        }
    }
}

/// Running the builder from `pos` to the end of the input: the dictionary
/// it holds when it stops, and the error that stopped it, if one did. On an
/// error the dictionary keeps every string read before the stopping event.
pub open spec fn spec_build(data: Seq<u8>, pos: int, dict: Seq<Seq<char>>) -> (
    Seq<Seq<char>>,
    Option<ParseError>,
)
    decreases data.len() - pos
        via spec_build_decreases
{
    if pos < 0 {
        (dict, Some(ParseError::UnexpectedEof { offset: 0 }))
    } else {
        match spec_build_step(data, pos, dict) {
            Err(e) => (dict, Some(e)),
            Ok(None) => (dict, None),
            Ok(Some((dict2, p2))) => {
                if pos < p2 <= data.len() {
                    spec_build(data, p2, dict2)
                } else {
                    (dict, Some(ParseError::UnexpectedEof { offset: pos as usize }))
                }
            },
        }
    }
}

#[via_fn]
proof fn spec_build_decreases(data: Seq<u8>, pos: int, dict: Seq<Seq<char>>) {
}

/// A successful string-primitive read consumes input and stays in bounds.
pub proof fn lemma_string_prim_advances(data: Seq<u8>, pos: int)
    requires
        0 <= pos,
    ensures
        spec_read_string_prim(data, pos) matches Ok((v, p2)) ==> pos < p2 <= data.len(),
{
    crate::varint::lemma_varint_advances(data, pos);
}

/// A step that consumes input always advances the position and stays in
/// bounds.
pub proof fn lemma_build_step_advances(data: Seq<u8>, pos: int, dict: Seq<Seq<char>>)
    requires
        0 <= pos,
    ensures
        spec_build_step(data, pos, dict) matches Ok(Some((d2, p2))) ==> pos < p2 <= data.len(),
{
    if pos < data.len() {
        crate::varint::lemma_varint_advances(data, pos);
        if let Ok((id, p)) = spec_varint(data, pos) {
            crate::varint::lemma_varint_advances(data, p);
            lemma_string_prim_advances(data, p);
            if id == EVENT_USER_HOST_INFO {
                if let Ok((_s1, q1)) = spec_read_string_prim(data, p) {
                    lemma_string_prim_advances(data, q1);
                }
            }
        }
    }
}

/// The early payload builder: it walks the stream and keeps every
/// dictionary string it meets.
pub struct PayloadBuilder {
    pub dictionary: Vec<String>,
}

impl Default for PayloadBuilder {
    fn default() -> (r: Self)
        ensures
            r.dictionary@.len() == 0,
    {
        PayloadBuilder { dictionary: Vec::new() }
    }
}

impl PayloadBuilder {
    pub fn new() -> (r: Self)
        ensures
            r.dictionary@.len() == 0,
    {
        PayloadBuilder { dictionary: Vec::new() }
    }

    /// Runs the state machine over the plaintext: known events are consumed
    /// (dictionary strings kept), an unknown id stops the build, and the
    /// payload itself stays empty, as no event is promoted to a record yet.
    pub fn build(&mut self, data: &[u8]) -> (r: Result<BuildScanPayload, ParseError>)
        ensures
            ({
                let sb = spec_build(data@, 0, old(self).dictionary.deep_view());
                final(self).dictionary.deep_view() == sb.0 && match r {
                    Ok(p) => sb.1 is None && spec_empty_payload(p),
                    Err(e) => sb.1 == Some(e),
                }
            }),
    {
        let mut decoder = StreamDecoder::new(data);
        let payload = BuildScanPayload::default();
        let ghost data0 = data@;
        loop
            invariant_except_break
                decoder.wf(),
                decoder@.data == data0,
                data0 == data@,
                spec_build(data@, 0, old(self).dictionary.deep_view()) == spec_build(
                    data@,
                    decoder@.offset,
                    self.dictionary.deep_view(),
                ),
            ensures
                spec_build(data@, 0, old(self).dictionary.deep_view()) == (
                    self.dictionary.deep_view(),
                    None::<ParseError>,
                ),
            decreases data@.len() - decoder@.offset,
        {
            let ghost pos0 = decoder@.offset;
            let ghost dict0 = self.dictionary.deep_view();
            proof {
                lemma_build_step_advances(data@, pos0, dict0);
            }
            let event_id = match decoder.read_raw_varint() {
                Ok(id) => id,
                Err(e) => {
                    match e {
                        ParseError::UnexpectedEof { .. } => {
                            break ;
                        },
                        other => {
                            return Err(other);
                        },
                    }
                },
            };
            if event_id == EVENT_USER_HOST_INFO {
                let _user = decoder.read_string()?;
                let _host = decoder.read_string()?;
            } else if event_id == EVENT_TASK_EXECUTION {
                let _task_path = decoder.read_string()?;
            } else if event_id == EVENT_OS_INFO || event_id == EVENT_JVM_INFO {
                let len = decoder.read_raw_varint()?;
                let _payload = decoder.read_bytes(#[verifier::truncate] (len as usize))?;
            } else if event_id == EVENT_TIMESTAMP {
                let _ts = decoder.read_timestamp()?;
            } else if event_id == EVENT_DICTIONARY_ADD {
                let s = decoder.read_string()?;
                match s {
                    Primitive::String(st) => {
                        let ghost prev = self.dictionary.deep_view();
                        let ghost item = st@;
                        self.dictionary.push(st);
                        proof {
                            assert(self.dictionary.deep_view() =~= prev.push(item));
                        }
                    },
                    _ => {
                        return Err(ParseError::UnexpectedPrimitive { expected: "String" });
                    },
                }
            } else {
                return Err(ParseError::UnknownEvent { id: event_id });
            }
        }
        Ok(payload)
    }
}

/// The early parser: decompression followed by the builder.
pub struct BuildScanParser {
    pub builder: PayloadBuilder,
}

impl Default for BuildScanParser {
    fn default() -> (r: Self)
        ensures
            r.builder.dictionary@.len() == 0,
    {
        BuildScanParser { builder: PayloadBuilder::new() }
    }
}

impl BuildScanParser {
    pub fn new() -> (r: Self)
        ensures
            r.builder.dictionary@.len() == 0,
    {
        BuildScanParser { builder: PayloadBuilder::new() }
    }

    /// Inflates the stream and runs the builder over the plaintext.
    pub fn parse_compressed(&mut self, data: &[u8]) -> (r: Result<BuildScanPayload, ParseError>)
        ensures
            ({
                let tail = data@.skip(crate::decompress::spec_gzip_start(data@));
                match crate::decompress::spec_gunzip(tail) {
                    None => r matches Err(e) && e == ParseError::InvalidGzip && *final(self)
                        == *old(self),
                    Some(plain) => {
                        let sb = spec_build(plain, 0, old(self).builder.dictionary.deep_view());
                        final(self).builder.dictionary.deep_view() == sb.0 && match r {
                            Ok(p) => sb.1 is None && spec_empty_payload(p),
                            Err(e) => sb.1 == Some(e),
                        }
                    },
                }
            }),
    {
        let decompressed = crate::decompress::Decompressor::decompress(data)?;
        self.builder.build(decompressed.as_slice())
    }
}

} // verus!

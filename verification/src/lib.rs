//! Decoder for the binary build-scan telemetry payload uploaded by a build
//! tool's scan plugin: outer framing header, embedded gzip stream, delta-coded
//! event frames, per-schema body decoders, and assembly of the decoded events
//! into a structured report.

use vstd::prelude::*;

mod error;
pub mod assembly;
pub mod decompress;
pub mod events;
pub mod framing;
pub mod kryo;
pub mod models;
pub mod outer_header;
pub mod parser;
pub mod scan;
pub mod stream;
pub mod varint;

pub use error::ParseError;

verus! {

/// The event stream a payload carries: the frames read from the start of
/// the plaintext, each paired with its decoded body, stopping at the first
/// error of either layer.
pub open spec fn spec_event_stream(rd: framing::SpecReader) -> Result<
    Seq<(framing::SpecFramedEvent, events::SpecDecodedEvent)>,
    ParseError,
>
    decreases rd.data.len() - rd.pos
        via spec_event_stream_decreases
{
    if rd.pos < 0 || rd.pos >= rd.data.len() {
        Ok(Seq::empty())
    } else {
        match framing::spec_read_frame(rd) {
            Err(e) => Err(e),
            Ok(step) => match events::spec_registry_decode(step.frame.wire_id, step.frame.body) {
                Err(e) => Err(e),
                Ok(d) => match spec_event_stream(step.state) {
                    Err(e) => Err(e),
                    Ok(rest) => Ok(seq![(step.frame, d)] + rest),
                },
            },
        }
    }
}

#[via_fn]
proof fn spec_event_stream_decreases(rd: framing::SpecReader) {
    if 0 <= rd.pos < rd.data.len() {
        framing::lemma_read_frame_advances(rd);
    }
}

/// What the whole pipeline yields for a payload, up to assembly: the header
/// is parsed, the tail inflated, and the plaintext read as decoded frames.
pub open spec fn spec_pipeline_events(raw: Seq<u8>) -> Result<
    Seq<(framing::SpecFramedEvent, events::SpecDecodedEvent)>,
    ParseError,
> {
    match outer_header::spec_parse_header(raw) {
        Err(e) => Err(e),
        Ok(h) => {
            let tail = raw.skip(h.gzip_offset);
            match decompress::spec_gunzip(tail.skip(decompress::spec_gzip_start(tail))) {
                None => Err(ParseError::InvalidGzip),
                Some(plain) => spec_event_stream(
                    framing::SpecReader {
                        data: plain,
                        pos: 0,
                        wire_id: 0,
                        timestamp: 0,
                        ordinal: 0,
                    },
                ),
            }
        },
    }
}

/// Decodes one full payload: outer header, decompression, the delta-coded
/// frame stream, per-schema bodies, and assembly into the report.
pub fn parse(raw_bytes: &[u8]) -> (r: Result<models::BuildScanPayload, ParseError>)
    ensures
        ({
            let sp = spec_pipeline_events(raw_bytes@);
            match r {
                Ok(payload) => sp matches Ok(evs) && assembly::report_matches(evs, payload),
                Err(e) => sp == Err::<
                    Seq<(framing::SpecFramedEvent, events::SpecDecodedEvent)>,
                    ParseError,
                >(e),
            }
        }),
{
    let header = outer_header::OuterHeader::parse(raw_bytes)?;
    let tail = vstd::slice::slice_subrange(raw_bytes, header.gzip_offset, raw_bytes.len());
    proof {
        assert(tail@ =~= raw_bytes@.skip(header.gzip_offset as int));
    }
    let decompressed = decompress::Decompressor::decompress(tail)?;
    let registry = events::DecoderRegistry::new();
    let mut reader = framing::EventFrameReader::new(decompressed.as_slice());
    let ghost init_rd = reader@;
    let ghost plain0 = decompressed@;
    let mut collected: Vec<(framing::FramedEvent, events::DecodedEvent)> = Vec::new();
    proof {
        assert(collected.deep_view() =~= Seq::<
            (framing::SpecFramedEvent, events::SpecDecodedEvent),
        >::empty());
        assert(spec_pipeline_events(raw_bytes@) == spec_event_stream(init_rd));
    }
    loop
        invariant_except_break
            reader.wf(),
            reader@.data == init_rd.data,
            spec_pipeline_events(raw_bytes@) == spec_event_stream(init_rd),
            init_rd == (framing::SpecReader {
                data: plain0,
                pos: 0,
                wire_id: 0,
                timestamp: 0,
                ordinal: 0,
            }),
            spec_event_stream(init_rd) == (match spec_event_stream(reader@) {
                Ok(rest) => Ok::<_, ParseError>(collected.deep_view() + rest),
                Err(e) => Err::<
                    Seq<(framing::SpecFramedEvent, events::SpecDecodedEvent)>,
                    ParseError,
                >(e),
            }),
        ensures
            spec_pipeline_events(raw_bytes@) == spec_event_stream(init_rd),
            spec_event_stream(init_rd) == Ok::<
                Seq<(framing::SpecFramedEvent, events::SpecDecodedEvent)>,
                ParseError,
            >(collected.deep_view()),
        decreases reader@.data.len() - reader@.pos,
    {
        let ghost rd_before = reader@;
        match reader.next() {
            None => {
                proof {
                    assert(spec_event_stream(rd_before) == Ok::<
                        Seq<(framing::SpecFramedEvent, events::SpecDecodedEvent)>,
                        ParseError,
                    >(Seq::empty()));
                    assert(collected.deep_view() + Seq::<
                        (framing::SpecFramedEvent, events::SpecDecodedEvent),
                    >::empty() =~= collected.deep_view());
                }
                break ;
            },
            Some(Err(e)) => {
                proof {
                    assert(rd_before.pos < rd_before.data.len());
                    assert(framing::spec_read_frame(rd_before) == Err::<
                        framing::SpecFrameStep,
                        ParseError,
                    >(e));
                    assert(spec_event_stream(rd_before) == Err::<
                        Seq<(framing::SpecFramedEvent, events::SpecDecodedEvent)>,
                        ParseError,
                    >(e));
                }
                return Err(e);
            },
            Some(Ok(frame)) => {
                proof {
                    framing::lemma_read_frame_advances(rd_before);
                }
                match registry.decode(frame.wire_id, frame.body.as_slice()) {
                    Err(e) => {
                        return Err(e);
                    },
                    Ok(d) => {
                        let ghost prev = collected.deep_view();
                        let ghost pair = (frame.deep_view(), d.deep_view());
                        collected.push((frame, d));
                        proof {
                            assert(collected.deep_view() =~= prev.push(pair));
                            let step = framing::spec_read_frame(rd_before)->Ok_0;
                            if spec_event_stream(reader@) is Ok {
                                let rest = spec_event_stream(reader@)->Ok_0;
                                assert(prev + (seq![pair] + rest) =~= prev.push(pair) + rest);
                            }
                        }
                    },
                }
            },
        }
    }
    Ok(assembly::assemble(collected))
}

} // verus!

//! The delta-coded event-frame layer: each frame carries a flags byte
//! saying which of the wire-id, timestamp, wall-clock and ordinal deltas
//! follow, then a length-prefixed body. State accumulates across frames.

use vstd::prelude::*;

use crate::error::ParseError;
use crate::varint;
use crate::varint::{spec_varint, spec_zigzag_decode_i32, spec_zigzag_decode_i64};

verus! {

/// One framed event as emitted to the decoders.
pub struct FramedEvent {
    pub wire_id: u16,
    pub timestamp: i64,
    pub ordinal: i32,
    pub body: Vec<u8>,
}

/// The mathematical image of a framed event.
pub ghost struct SpecFramedEvent {
    pub wire_id: u16,
    pub timestamp: i64,
    pub ordinal: i32,
    pub body: Seq<u8>,
}

impl DeepView for FramedEvent {
    type V = SpecFramedEvent;

    open spec fn deep_view(&self) -> SpecFramedEvent {
        SpecFramedEvent {
            wire_id: self.wire_id,
            timestamp: self.timestamp,
            ordinal: self.ordinal,
            body: self.body@,
        }
    }
}

/// The reader's whole state: the stream and the three delta accumulators.
/// The wire id accumulates as a signed 64-bit value and is narrowed to
/// unsigned 16 bits only when a frame is emitted.
pub ghost struct SpecReader {
    pub data: Seq<u8>,
    pub pos: int,
    pub wire_id: i64,
    pub timestamp: i64,
    pub ordinal: i32,
}

/// One frame step: the frame, the state after it, and the two deltas the
/// stream invariants speak of (their defaults stand in when absent: zero for
/// the timestamp, one for the ordinal).
pub ghost struct SpecFrameStep {
    pub frame: SpecFramedEvent,
    pub state: SpecReader,
    pub ts_delta: i64,
    pub ord_delta: i32,
}

/// What reading one frame yields: flags byte, then a conditional zigzag
/// delta for each of wire id, timestamp, discarded wall clock and ordinal,
/// then the body length and the body bytes.
pub open spec fn spec_read_frame(rd: SpecReader) -> Result<SpecFrameStep, ParseError> {
    let data = rd.data;
    match spec_varint(data, rd.pos) {
        Err(e) => Err(e),
        Ok((fv, p0)) => {
            let flags = fv as u8;
            let wire_step: Result<(i64, int), ParseError> = if flags & 1 == 0 {
                match spec_varint(data, p0) {
                    Ok((u, p)) => Ok(
                        (
                            vstd::wrapping::i64_specs::wrapping_add(
                                rd.wire_id,
                                spec_zigzag_decode_i32(u as u32) as i64,
                            ),
                            p,
                        ),
                    ),
                    Err(e) => Err(e),
                }
            } else {
                Ok((rd.wire_id, p0))
            };
            match wire_step {
                Err(e) => Err(e),
                Ok((wire2, p1)) => {
                    let ts_step: Result<(i64, i64, int), ParseError> = if flags & 2 == 0 {
                        match spec_varint(data, p1) {
                            Ok((u, p)) => Ok(
                                (
                                    spec_zigzag_decode_i64(u),
                                    vstd::wrapping::i64_specs::wrapping_add(
                                        rd.timestamp,
                                        spec_zigzag_decode_i64(u),
                                    ),
                                    p,
                                ),
                            ),
                            Err(e) => Err(e),
                        }
                    } else {
                        Ok((0, rd.timestamp, p1))
                    };
                    match ts_step {
                        Err(e) => Err(e),
                        Ok((ts_delta, ts2, p2)) => {
                            let wall_step: Result<int, ParseError> = if flags & 4 == 0 {
                                match spec_varint(data, p2) {
                                    Ok((_u, p)) => Ok(p),
                                    Err(e) => Err(e),
                                }
                            } else {
                                Ok(p2)
                            };
                            match wall_step {
                                Err(e) => Err(e),
                                Ok(p3) => {
                                    let ord_step: Result<(i32, i32, int), ParseError> = if flags
                                        & 8 == 0 {
                                        match spec_varint(data, p3) {
                                            Ok((u, p)) => Ok(
                                                (
                                                    spec_zigzag_decode_i32(u as u32),
                                                    vstd::wrapping::i32_specs::wrapping_add(
                                                        rd.ordinal,
                                                        spec_zigzag_decode_i32(u as u32),
                                                    ),
                                                    p,
                                                ),
                                            ),
                                            Err(e) => Err(e),
                                        }
                                    } else {
                                        Ok(
                                            (
                                                1,
                                                vstd::wrapping::i32_specs::wrapping_add(
                                                    rd.ordinal,
                                                    1,
                                                ),
                                                p3,
                                            ),
                                        )
                                    };
                                    match ord_step {
                                        Err(e) => Err(e),
                                        Ok((ord_delta, ord2, p4)) => {
                                            match spec_varint(data, p4) {
                                                Err(e) => Err(e),
                                                Ok((blen, p5)) => {
                                                    let body_len = blen as usize;
                                                    if p5 + body_len > data.len() {
                                                        Err(
                                                            ParseError::UnexpectedEof {
                                                                offset: p5 as usize,
                                                            },
                                                        )
                                                    } else {
                                                        Ok(
                                                            SpecFrameStep {
                                                                frame: SpecFramedEvent {
                                                                    wire_id: wire2 as u16,
                                                                    timestamp: ts2,
                                                                    ordinal: ord2,
                                                                    body: data.subrange(
                                                                        p5,
                                                                        p5 + body_len,
                                                                    ),
                                                                },
                                                                state: SpecReader {
                                                                    data,
                                                                    pos: p5 + body_len,
                                                                    wire_id: wire2,
                                                                    timestamp: ts2,
                                                                    ordinal: ord2,
                                                                },
                                                                ts_delta,
                                                                ord_delta,
                                                            },
                                                        )
                                                    }
                                                },
                                            }
                                        },
                                    }
                                },
                            }
                        },
                    }
                },
            }
        },
    }
}

/// A successful frame read stays on the same stream, consumes at least one
/// byte, and lands in bounds.
pub proof fn lemma_read_frame_advances(rd: SpecReader)
    requires
        0 <= rd.pos,
    ensures
        spec_read_frame(rd) matches Ok(step) ==> step.state.data == rd.data && rd.pos
            < step.state.pos <= rd.data.len(),
{
    if spec_read_frame(rd) is Ok {
        varint::lemma_varint_advances(rd.data, rd.pos);
        if let Ok((fv, p0)) = spec_varint(rd.data, rd.pos) {
            varint::lemma_varint_advances(rd.data, p0);
            let flags = fv as u8;
            let p1 = if flags & 1 == 0 {
                spec_varint(rd.data, p0)->Ok_0.1
            } else {
                p0
            };
            varint::lemma_varint_advances(rd.data, p1);
            let p2 = if flags & 2 == 0 {
                spec_varint(rd.data, p1)->Ok_0.1
            } else {
                p1
            };
            varint::lemma_varint_advances(rd.data, p2);
            let p3 = if flags & 4 == 0 {
                spec_varint(rd.data, p2)->Ok_0.1
            } else {
                p2
            };
            varint::lemma_varint_advances(rd.data, p3);
            let p4 = if flags & 8 == 0 {
                spec_varint(rd.data, p3)->Ok_0.1
            } else {
                p3
            };
            varint::lemma_varint_advances(rd.data, p4);
        }
    }
}

/// The frame sequence of a whole stream, read from `rd` to the end.
pub open spec fn spec_frames(rd: SpecReader) -> Result<Seq<SpecFrameStep>, ParseError>
    decreases rd.data.len() - rd.pos
        via spec_frames_decreases
{
    if rd.pos < 0 || rd.pos >= rd.data.len() {
        Ok(Seq::empty())
    } else {
        match spec_read_frame(rd) {
            Err(e) => Err(e),
            Ok(step) => match spec_frames(step.state) {
                Err(e) => Err(e),
                Ok(rest) => Ok(seq![step] + rest),
            },
        }
    }
}

#[via_fn]
proof fn spec_frames_decreases(rd: SpecReader) {
    if 0 <= rd.pos < rd.data.len() {
        lemma_read_frame_advances(rd);
    }
}

/// The state a step starts from: the initial state for the first step, the
/// previous step's state after that.
pub open spec fn spec_step_prev(init: SpecReader, steps: Seq<SpecFrameStep>, i: int) -> SpecReader {
    if i == 0 {
        init
    } else {
        steps[i - 1].state
    }
}

/// Step `i` respects the wire invariants: a non-negative timestamp delta, a
/// positive ordinal delta, and no accumulator wrap.
pub open spec fn spec_step_gentle_at(init: SpecReader, steps: Seq<SpecFrameStep>, i: int) -> bool {
    steps[i].ts_delta >= 0 && spec_step_prev(init, steps, i).timestamp + steps[i].ts_delta
        <= i64::MAX && steps[i].ord_delta > 0 && spec_step_prev(init, steps, i).ordinal + steps[i]
        .ord_delta <= i32::MAX
}

/// The premise of the stream invariants, over a whole frame sequence.
pub open spec fn spec_steps_gentle(init: SpecReader, steps: Seq<SpecFrameStep>) -> bool {
    forall|i: int| 0 <= i < steps.len() ==> #[trigger] spec_step_gentle_at(init, steps, i)
}

/// For any stream whose deltas respect the wire invariants, the emitted
/// ordinals are strictly increasing and the timestamps non-decreasing.
pub proof fn lemma_frames_monotonic(init: SpecReader, steps: Seq<SpecFrameStep>)
    requires
        0 <= init.pos,
        spec_frames(init) == Ok::<Seq<SpecFrameStep>, ParseError>(steps),
        spec_steps_gentle(init, steps),
    ensures
        forall|i: int|
            0 <= i < steps.len() ==> #[trigger] steps[i].frame.ordinal > init.ordinal
                && steps[i].frame.timestamp >= init.timestamp,
        forall|i: int, j: int|
            0 <= i < j < steps.len() ==> steps[i].frame.ordinal < steps[j].frame.ordinal
                && steps[i].frame.timestamp <= steps[j].frame.timestamp,
    decreases steps.len(),
{
    if init.pos >= init.data.len() {
    } else {
        let step0 = spec_read_frame(init)->Ok_0;
        let rest = spec_frames(step0.state)->Ok_0;
        assert(steps == seq![step0] + rest);
        assert(steps[0] == step0);
        assert(spec_step_gentle_at(init, steps, 0));
        assert(step0.frame.ordinal == step0.state.ordinal && step0.frame.timestamp
            == step0.state.timestamp);
        assert(step0.state.ordinal > init.ordinal && step0.state.timestamp >= init.timestamp);
        assert(rest =~= steps.subrange(1, steps.len() as int));
        lemma_read_frame_advances(init);
        assert(spec_steps_gentle(step0.state, rest)) by {
            assert forall|i: int| 0 <= i < rest.len() implies #[trigger] spec_step_gentle_at(
                step0.state,
                rest,
                i,
            ) by {
                assert(spec_step_gentle_at(init, steps, i + 1));
                assert(rest[i] == steps[i + 1]);
                if i > 0 {
                    assert(rest[i - 1] == steps[i]);
                }
            }
        }
        lemma_frames_monotonic(step0.state, rest);
        assert forall|i: int|
            0 <= i < steps.len() implies #[trigger] steps[i].frame.ordinal > init.ordinal
            && steps[i].frame.timestamp >= init.timestamp by {
            if i > 0 {
                assert(steps[i] == rest[i - 1]);
            }
        }
        assert forall|i: int, j: int|
            0 <= i < j < steps.len() implies steps[i].frame.ordinal < steps[j].frame.ordinal
            && steps[i].frame.timestamp <= steps[j].frame.timestamp by {
            assert(steps[j] == rest[j - 1]);
            if i > 0 {
                assert(steps[i] == rest[i - 1]);
            } else {
                assert(steps[j].frame.ordinal > step0.state.ordinal && steps[j].frame.timestamp
                    >= step0.state.timestamp);
            }
        }
    }
}

/// A lazy, forward-only reader of the frame stream.
pub struct EventFrameReader<'a> {
    data: &'a [u8],
    pos: usize,
    wire_id: i64,
    timestamp: i64,
    ordinal: i32,
}

impl<'a> View for EventFrameReader<'a> {
    type V = SpecReader;

    closed spec fn view(&self) -> SpecReader {
        SpecReader {
            data: self.data@,
            pos: self.pos as int,
            wire_id: self.wire_id,
            timestamp: self.timestamp,
            ordinal: self.ordinal,
        }
    }
}

impl<'a> EventFrameReader<'a> {
    /// The reader's position always lies inside its stream.
    pub open spec fn wf(&self) -> bool {
        0 <= self@.pos <= self@.data.len()
    }

    /// A fresh reader: all three accumulators start at zero.
    pub fn new(data: &'a [u8]) -> (r: Self)
        ensures
            r@ == (SpecReader { data: data@, pos: 0, wire_id: 0, timestamp: 0, ordinal: 0 }),
            r.wf(),
    {
        EventFrameReader { data, pos: 0, wire_id: 0, timestamp: 0, ordinal: 0 }
    }

    /// Reads one frame at the current position.
    fn read_next(&mut self) -> (r: Result<FramedEvent, ParseError>)
        requires
            old(self).wf(),
        ensures
            final(self).wf(),
            final(self)@.data == old(self)@.data,
            ({
                let sp = spec_read_frame(old(self)@);
                match r {
                    Ok(f) => sp matches Ok(step) && f.deep_view() == step.frame && final(self)@
                        == step.state,
                    Err(e) => sp == Err::<SpecFrameStep, ParseError>(e),
                }
            }),
    {
        let flags_v = varint::read_unsigned_varint(self.data, &mut self.pos)?;
        let flags = #[verifier::truncate] (flags_v as u8);

        if flags & 1 == 0 {
            let delta = varint::read_zigzag_i32(self.data, &mut self.pos)?;
            self.wire_id = self.wire_id.wrapping_add(delta as i64);
        }
        if flags & 2 == 0 {
            let delta = varint::read_zigzag_i64(self.data, &mut self.pos)?;
            self.timestamp = self.timestamp.wrapping_add(delta);
        }
        if flags & 4 == 0 {
            let _wall_delta = varint::read_zigzag_i64(self.data, &mut self.pos)?;
        }
        if flags & 8 == 0 {
            let delta = varint::read_zigzag_i32(self.data, &mut self.pos)?;
            self.ordinal = self.ordinal.wrapping_add(delta);
        } else {
            self.ordinal = self.ordinal.wrapping_add(1);
        }

        let blen = varint::read_unsigned_varint(self.data, &mut self.pos)?;
        let body_length = #[verifier::truncate] (blen as usize);
        if body_length > self.data.len() - self.pos {
            return Err(ParseError::UnexpectedEof { offset: self.pos });
        }
        let body = vstd::slice::slice_to_vec(
            vstd::slice::slice_subrange(self.data, self.pos, self.pos + body_length),
        );
        self.pos += body_length;

        Ok(
            FramedEvent {
                wire_id: #[verifier::truncate] (self.wire_id as u16),
                timestamp: self.timestamp,
                ordinal: self.ordinal,
                body,
            },
        )
    }

    /// The next frame, or `None` at a clean frame boundary.
    pub fn next(&mut self) -> (r: Option<Result<FramedEvent, ParseError>>)
        requires
            old(self).wf(),
        ensures
            final(self).wf(),
            final(self)@.data == old(self)@.data,
            ({
                match r {
                    None => old(self)@.pos >= old(self)@.data.len() && final(self)@ == old(self)@,
                    Some(Ok(f)) => (spec_read_frame(old(self)@) matches Ok(step) && f.deep_view()
                        == step.frame && final(self)@ == step.state) && old(self)@.pos < old(
                        self,
                    )@.data.len(),
                    Some(Err(e)) => old(self)@.pos < old(self)@.data.len() && spec_read_frame(
                        old(self)@,
                    ) == Err::<SpecFrameStep, ParseError>(e),
                }
            }),
    {
        if self.pos >= self.data.len() {
            return None;
        }
        Some(self.read_next())
    }
}

} // verus!

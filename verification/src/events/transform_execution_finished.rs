//! Wire 395: outcome and cache provenance of a transform execution.

use vstd::prelude::*;

use crate::error::ParseError;
use crate::events::{DecodedEvent, TransformExecutionFinishedEvent, SpecTransformExecutionFinishedEvent};
use crate::kryo;

verus! {

broadcast use crate::kryo::group_deep_view_eq;

pub struct TransformExecutionFinishedDecoder;

/// What decoding a wire-395 body yields.
pub open spec fn spec_decode(body: Seq<u8>) -> Result<SpecTransformExecutionFinishedEvent, ParseError> {
    match kryo::spec_read_flags_u16_be(body, 0) {
        Err(e) => Err(e),
        Ok((fl, p0)) => {
            let t0 = Seq::<Seq<char>>::empty();
            let r1: Result<(i64, int), ParseError> = if kryo::spec_field_present(fl, 0) {
                kryo::spec_read_zigzag_i64(body, p0)
            } else {
                Ok((0, p0))
            };
            match r1 {
                Err(e) => Err(e),
                Ok((x1, p1)) => {
                    let r2: Result<(i64, int), ParseError> = if kryo::spec_field_present(fl, 1) {
                        kryo::spec_read_positive_varint_i64(body, p1)
                    } else {
                        Ok((0, p1))
                    };
                    match r2 {
                        Err(e) => Err(e),
                        Ok((x2, p2)) => {
                            let r3: Result<(u64, int), ParseError> = if kryo::spec_field_present(fl, 2) {
                                kryo::spec_read_enum_ordinal(body, p2)
                            } else {
                                Ok((0, p2))
                            };
                            match r3 {
                                Err(e) => Err(e),
                                Ok((x3, p3)) => {
                                    let r4: Result<(Seq<Seq<char>>, int, Seq<Seq<char>>), ParseError> = if kryo::spec_field_present(fl, 3) {
                                        kryo::spec_read_list_of_interned_strings(body, p3, t0)
                                    } else {
                                        Ok((Seq::empty(), p3, t0))
                                    };
                                    match r4 {
                                        Err(e) => Err(e),
                                        Ok((x4, p4, t4)) => {
                                            let r5: Result<(Seq<char>, int, Seq<Seq<char>>), ParseError> = if kryo::spec_field_present(fl, 4) {
                                                kryo::spec_read_string(body, p4, t4)
                                            } else {
                                                Ok((Seq::empty(), p4, t4))
                                            };
                                            match r5 {
                                                Err(e) => Err(e),
                                                Ok((x5, p5, t5)) => {
                                                    let r6: Result<(Seq<char>, int, Seq<Seq<char>>), ParseError> = if kryo::spec_field_present(fl, 5) {
                                                        kryo::spec_read_string(body, p5, t5)
                                                    } else {
                                                        Ok((Seq::empty(), p5, t5))
                                                    };
                                                    match r6 {
                                                        Err(e) => Err(e),
                                                        Ok((x6, p6, t6)) => {
                                                            let r7: Result<(Seq<char>, int, Seq<Seq<char>>), ParseError> = if kryo::spec_field_present(fl, 6) {
                                                                kryo::spec_read_string(body, p6, t6)
                                                            } else {
                                                                Ok((Seq::empty(), p6, t6))
                                                            };
                                                            match r7 {
                                                                Err(e) => Err(e),
                                                                Ok((x7, p7, t7)) => {
                                                                    let r8: Result<(Seq<u8>, int), ParseError> = if kryo::spec_field_present(fl, 7) {
                                                                        kryo::spec_read_byte_array(body, p7)
                                                                    } else {
                                                                        Ok((Seq::empty(), p7))
                                                                    };
                                                                    match r8 {
                                                                        Err(e) => Err(e),
                                                                        Ok((x8, p8)) => {
                                                                            let r9: Result<(i64, int), ParseError> = if kryo::spec_field_present(fl, 8) {
                                                                                kryo::spec_read_positive_varint_i64(body, p8)
                                                                            } else {
                                                                                Ok((0, p8))
                                                                            };
                                                                            match r9 {
                                                                                Err(e) => Err(e),
                                                                                Ok((x9, p9)) => {
                                                                                    Ok(
                                                                                        SpecTransformExecutionFinishedEvent {
                                                                                            id: x1,
                                                                                            failure_id: if kryo::spec_field_present(fl, 1) { Some(x2) } else { None },
                                                                                            outcome: if kryo::spec_field_present(fl, 2) { Some(x3) } else { None },
                                                                                            execution_reasons: x4,
                                                                                            caching_disabled_reason_category: if kryo::spec_field_present(fl, 4) { Some(x5) } else { None },
                                                                                            caching_disabled_explanation: if kryo::spec_field_present(fl, 5) { Some(x6) } else { None },
                                                                                            origin_build_invocation_id: if kryo::spec_field_present(fl, 6) { Some(x7) } else { None },
                                                                                            origin_build_cache_key: if kryo::spec_field_present(fl, 7) { Some(x8) } else { None },
                                                                                            origin_execution_time: if kryo::spec_field_present(fl, 8) { Some(x9) } else { None },
                                                                                        },
                                                                                    )
                                                                                },
                                                                            }
                                                                        },
                                                                    }
                                                                },
                                                            }
                                                        },
                                                    }
                                                },
                                            }
                                        },
                                    }
                                },
                            }
                        },
                    }
                },
            }
        },
    }
}

impl TransformExecutionFinishedDecoder {
    /// Decodes a wire-395 body.
    #[verifier::rlimit(100)]
    pub fn decode(&self, body: &[u8]) -> (r: Result<DecodedEvent, ParseError>)
        ensures
            ({
                let sp = spec_decode(body@);
                match r {
                    Ok(d) => sp matches Ok(se) && d matches DecodedEvent::TransformExecutionFinished(e)
                        && e.deep_view() == se,
                    Err(e) => sp == Err::<SpecTransformExecutionFinishedEvent, ParseError>(e),
                }
            }),
    {
        let mut pos: usize = 0;
        let fl = kryo::read_flags_u16_be(body, &mut pos)?;
        let mut table = kryo::StringInternTable::new();
        let v_id = if kryo::is_field_present(fl, 0) {
            kryo::read_zigzag_i64(body, &mut pos)?
        } else {
            0
        };
        let v_failure_id = if kryo::is_field_present(fl, 1) {
            kryo::read_positive_varint_i64(body, &mut pos)?
        } else {
            0
        };
        let v_outcome = if kryo::is_field_present(fl, 2) {
            kryo::read_enum_ordinal(body, &mut pos)?
        } else {
            0
        };
        let v_execution_reasons = if kryo::is_field_present(fl, 3) {
            kryo::read_list_of_interned_strings(body, &mut pos, &mut table)?
        } else {
            Vec::new()
        };
        let v_caching_disabled_reason_category = if kryo::is_field_present(fl, 4) {
            table.read_string(body, &mut pos)?
        } else {
            String::new()
        };
        let v_caching_disabled_explanation = if kryo::is_field_present(fl, 5) {
            table.read_string(body, &mut pos)?
        } else {
            String::new()
        };
        let v_origin_build_invocation_id = if kryo::is_field_present(fl, 6) {
            table.read_string(body, &mut pos)?
        } else {
            String::new()
        };
        let v_origin_build_cache_key = if kryo::is_field_present(fl, 7) {
            kryo::read_byte_array(body, &mut pos)?
        } else {
            Vec::new()
        };
        let v_origin_execution_time = if kryo::is_field_present(fl, 8) {
            kryo::read_positive_varint_i64(body, &mut pos)?
        } else {
            0
        };
        Ok(
            DecodedEvent::TransformExecutionFinished(
                TransformExecutionFinishedEvent {
                    id: v_id,
                    failure_id: if kryo::is_field_present(fl, 1) { Some(v_failure_id) } else { None },
                    outcome: if kryo::is_field_present(fl, 2) { Some(v_outcome) } else { None },
                    execution_reasons: v_execution_reasons,
                    caching_disabled_reason_category: if kryo::is_field_present(fl, 4) { Some(v_caching_disabled_reason_category) } else { None },
                    caching_disabled_explanation: if kryo::is_field_present(fl, 5) { Some(v_caching_disabled_explanation) } else { None },
                    origin_build_invocation_id: if kryo::is_field_present(fl, 6) { Some(v_origin_build_invocation_id) } else { None },
                    origin_build_cache_key: if kryo::is_field_present(fl, 7) { Some(v_origin_build_cache_key) } else { None },
                    origin_execution_time: if kryo::is_field_present(fl, 8) { Some(v_origin_execution_time) } else { None },
                },
            ),
        )
    }
}

} // verus!

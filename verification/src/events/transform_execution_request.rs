//! Wire 137: the three correlation ids of a transform request.

use vstd::prelude::*;

use crate::error::ParseError;
use crate::events::{DecodedEvent, TransformExecutionRequestEvent};
use crate::kryo;

verus! {

broadcast use crate::kryo::group_deep_view_eq;

pub struct TransformExecutionRequestDecoder;

/// What decoding a wire-137 body yields.
pub open spec fn spec_decode(body: Seq<u8>) -> Result<TransformExecutionRequestEvent, ParseError> {
    match kryo::spec_read_flags_byte(body, 0) {
        Err(e) => Err(e),
        Ok((flags, p0)) => {
            let fl = flags as u16;
            let r1: Result<(i64, int), ParseError> = if kryo::spec_field_present(fl, 0) {
                kryo::spec_read_task_id(body, p0)
            } else {
                Ok((0, p0))
            };
            match r1 {
                Err(e) => Err(e),
                Ok((x1, p1)) => {
                    let r2: Result<(i64, int), ParseError> = if kryo::spec_field_present(fl, 1) {
                        kryo::spec_read_task_id(body, p1)
                    } else {
                        Ok((0, p1))
                    };
                    match r2 {
                        Err(e) => Err(e),
                        Ok((x2, p2)) => {
                            let r3: Result<(i64, int), ParseError> = if kryo::spec_field_present(fl, 2) {
                                kryo::spec_read_task_id(body, p2)
                            } else {
                                Ok((0, p2))
                            };
                            match r3 {
                                Err(e) => Err(e),
                                Ok((x3, p3)) => {
                                    Ok(
                                        TransformExecutionRequestEvent {
                                            node_id: if kryo::spec_field_present(fl, 0) { Some(x1) } else { None },
                                            identification_id: if kryo::spec_field_present(fl, 1) { Some(x2) } else { None },
                                            execution_id: if kryo::spec_field_present(fl, 2) { Some(x3) } else { None },
                                        },
                                    )
                                },
                            }
                        },
                    }
                },
            }
        },
    }
}

impl TransformExecutionRequestDecoder {
    /// Decodes a wire-137 body.
    pub fn decode(&self, body: &[u8]) -> (r: Result<DecodedEvent, ParseError>)
        ensures
            ({
                let sp = spec_decode(body@);
                match r {
                    Ok(d) => sp matches Ok(se) && d matches DecodedEvent::TransformExecutionRequest(e)
                        && e.deep_view() == se,
                    Err(e) => sp == Err::<TransformExecutionRequestEvent, ParseError>(e),
                }
            }),
    {
        let mut pos: usize = 0;
        let flags = kryo::read_flags_byte(body, &mut pos)?;
        let fl = flags as u16;
        let v_node_id = if kryo::is_field_present(fl, 0) {
            kryo::read_task_id(body, &mut pos)?
        } else {
            0
        };
        let v_identification_id = if kryo::is_field_present(fl, 1) {
            kryo::read_task_id(body, &mut pos)?
        } else {
            0
        };
        let v_execution_id = if kryo::is_field_present(fl, 2) {
            kryo::read_task_id(body, &mut pos)?
        } else {
            0
        };
        Ok(
            DecodedEvent::TransformExecutionRequest(
                TransformExecutionRequestEvent {
                    node_id: if kryo::is_field_present(fl, 0) { Some(v_node_id) } else { None },
                    identification_id: if kryo::is_field_present(fl, 1) { Some(v_identification_id) } else { None },
                    execution_id: if kryo::is_field_present(fl, 2) { Some(v_execution_id) } else { None },
                },
            ),
        )
    }
}

} // verus!

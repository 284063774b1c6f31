//! Wire 119: a planned node and its four dependency lists.

use vstd::prelude::*;

use crate::error::ParseError;
use crate::events::{DecodedEvent, PlannedNodeEvent, SpecPlannedNodeEvent};
use crate::kryo;

verus! {

broadcast use crate::kryo::group_deep_view_eq;

pub struct PlannedNodeDecoder;

/// What decoding a wire-119 body yields.
pub open spec fn spec_decode(body: Seq<u8>) -> Result<SpecPlannedNodeEvent, ParseError> {
    match kryo::spec_read_flags_byte(body, 0) {
        Err(e) => Err(e),
        Ok((flags, p0)) => {
            let fl = flags as u16;
            let r1: Result<(i64, int), ParseError> = if kryo::spec_field_present(fl, 0) {
                kryo::spec_read_task_id(body, p0)
            } else {
                Ok((0, p0))
            };
            match r1 {
                Err(e) => Err(e),
                Ok((x1, p1)) => {
                    let r2: Result<(Seq<i64>, int), ParseError> = if kryo::spec_field_present(fl, 1) {
                        kryo::spec_read_list_of_i64(body, p1)
                    } else {
                        Ok((Seq::empty(), p1))
                    };
                    match r2 {
                        Err(e) => Err(e),
                        Ok((x2, p2)) => {
                            let r3: Result<(Seq<i64>, int), ParseError> = if kryo::spec_field_present(fl, 2) {
                                kryo::spec_read_list_of_i64(body, p2)
                            } else {
                                Ok((Seq::empty(), p2))
                            };
                            match r3 {
                                Err(e) => Err(e),
                                Ok((x3, p3)) => {
                                    let r4: Result<(Seq<i64>, int), ParseError> = if kryo::spec_field_present(fl, 3) {
                                        kryo::spec_read_list_of_i64(body, p3)
                                    } else {
                                        Ok((Seq::empty(), p3))
                                    };
                                    match r4 {
                                        Err(e) => Err(e),
                                        Ok((x4, p4)) => {
                                            let r5: Result<(Seq<i64>, int), ParseError> = if kryo::spec_field_present(fl, 4) {
                                                kryo::spec_read_list_of_i64(body, p4)
                                            } else {
                                                Ok((Seq::empty(), p4))
                                            };
                                            match r5 {
                                                Err(e) => Err(e),
                                                Ok((x5, p5)) => {
                                                    Ok(
                                                        SpecPlannedNodeEvent {
                                                            id: if kryo::spec_field_present(fl, 0) { Some(x1) } else { None },
                                                            dependencies: x2,
                                                            must_run_after: x3,
                                                            should_run_after: x4,
                                                            finalized_by: x5,
                                                        },
                                                    )
                                                },
                                            }
                                        },
                                    }
                                },
                            }
                        },
                    }
                },
            }
        },
    }
}

impl PlannedNodeDecoder {
    /// Decodes a wire-119 body.
    pub fn decode(&self, body: &[u8]) -> (r: Result<DecodedEvent, ParseError>)
        ensures
            ({
                let sp = spec_decode(body@);
                match r {
                    Ok(d) => sp matches Ok(se) && d matches DecodedEvent::PlannedNode(e)
                        && e.deep_view() == se,
                    Err(e) => sp == Err::<SpecPlannedNodeEvent, ParseError>(e),
                }
            }),
    {
        let mut pos: usize = 0;
        let flags = kryo::read_flags_byte(body, &mut pos)?;
        let fl = flags as u16;
        let v_id = if kryo::is_field_present(fl, 0) {
            kryo::read_task_id(body, &mut pos)?
        } else {
            0
        };
        let v_dependencies = if kryo::is_field_present(fl, 1) {
            kryo::read_list_of_i64(body, &mut pos)?
        } else {
            Vec::new()
        };
        let v_must_run_after = if kryo::is_field_present(fl, 2) {
            kryo::read_list_of_i64(body, &mut pos)?
        } else {
            Vec::new()
        };
        let v_should_run_after = if kryo::is_field_present(fl, 3) {
            kryo::read_list_of_i64(body, &mut pos)?
        } else {
            Vec::new()
        };
        let v_finalized_by = if kryo::is_field_present(fl, 4) {
            kryo::read_list_of_i64(body, &mut pos)?
        } else {
            Vec::new()
        };
        Ok(
            DecodedEvent::PlannedNode(
                PlannedNodeEvent {
                    id: if kryo::is_field_present(fl, 0) { Some(v_id) } else { None },
                    dependencies: v_dependencies,
                    must_run_after: v_must_run_after,
                    should_run_after: v_should_run_after,
                    finalized_by: v_finalized_by,
                },
            ),
        )
    }
}

} // verus!

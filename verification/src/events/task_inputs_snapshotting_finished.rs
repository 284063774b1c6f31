//! Wire 349: snapshotting finish, with an optional nested result block.

use vstd::prelude::*;

use crate::error::ParseError;
use crate::events::{DecodedEvent, SpecTaskInputsSnapshottingFinishedEvent,
    SpecTaskInputsSnapshottingResult, TaskInputsSnapshottingFinishedEvent,
    TaskInputsSnapshottingResult};
use crate::kryo;

verus! {

broadcast use crate::kryo::group_deep_view_eq;

pub struct TaskInputsSnapshottingFinishedDecoder;

/// The nested result block: its own flags byte, then hash, three ids and a
/// file-input list.
pub open spec fn spec_read_result(body: Seq<u8>, pos: int) -> Result<
    (SpecTaskInputsSnapshottingResult, int),
    ParseError,
> {
    match kryo::spec_read_flags_byte(body, pos) {
        Err(e) => Err(e),
        Ok((flags, p0)) => {
            let fl = flags as u16;
            let r1: Result<(Seq<u8>, int), ParseError> = if kryo::spec_field_present(fl, 0) {
                kryo::spec_read_byte_array(body, p0)
            } else {
                Ok((Seq::empty(), p0))
            };
            match r1 {
                Err(e) => Err(e),
                Ok((hash, p1)) => {
                    let r2: Result<(i64, int), ParseError> = if kryo::spec_field_present(fl, 1) {
                        kryo::spec_read_task_id(body, p1)
                    } else {
                        Ok((0, p1))
                    };
                    match r2 {
                        Err(e) => Err(e),
                        Ok((implementation, p2)) => {
                            let r3: Result<(i64, int), ParseError> = if kryo::spec_field_present(
                                fl,
                                2,
                            ) {
                                kryo::spec_read_task_id(body, p2)
                            } else {
                                Ok((0, p2))
                            };
                            match r3 {
                                Err(e) => Err(e),
                                Ok((property_names, p3)) => {
                                    let r4: Result<(i64, int), ParseError> =
                                        if kryo::spec_field_present(fl, 3) {
                                        kryo::spec_read_task_id(body, p3)
                                    } else {
                                        Ok((0, p3))
                                    };
                                    match r4 {
                                        Err(e) => Err(e),
                                        Ok((value_inputs, p4)) => {
                                            let r5: Result<(Seq<i64>, int), ParseError> =
                                                if kryo::spec_field_present(fl, 4) {
                                                kryo::spec_read_list_of_i64(body, p4)
                                            } else {
                                                Ok((Seq::empty(), p4))
                                            };
                                            match r5 {
                                                Err(e) => Err(e),
                                                Ok((file_inputs, p5)) => Ok(
                                                    (
                                                        SpecTaskInputsSnapshottingResult {
                                                            hash: if kryo::spec_field_present(
                                                                fl,
                                                                0,
                                                            ) {
                                                                Some(hash)
                                                            } else {
                                                                None
                                                            },
                                                            implementation:
                                                                if kryo::spec_field_present(
                                                                fl,
                                                                1,
                                                            ) {
                                                                Some(implementation)
                                                            } else {
                                                                None
                                                            },
                                                            property_names:
                                                                if kryo::spec_field_present(
                                                                fl,
                                                                2,
                                                            ) {
                                                                Some(property_names)
                                                            } else {
                                                                None
                                                            },
                                                            value_inputs:
                                                                if kryo::spec_field_present(
                                                                fl,
                                                                3,
                                                            ) {
                                                                Some(value_inputs)
                                                            } else {
                                                                None
                                                            },
                                                            file_inputs,
                                                        },
                                                        p5,
                                                    ),
                                                ),
                                            }
                                        },
                                    }
                                },
                            }
                        },
                    }
                },
            }
        },
    }
}

/// What decoding a wire-349 body yields.
pub open spec fn spec_decode(body: Seq<u8>) -> Result<
    SpecTaskInputsSnapshottingFinishedEvent,
    ParseError,
> {
    match kryo::spec_read_flags_byte(body, 0) {
        Err(e) => Err(e),
        Ok((flags, p0)) => {
            let fl = flags as u16;
            let r1: Result<(i64, int), ParseError> = if kryo::spec_field_present(fl, 0) {
                kryo::spec_read_task_id(body, p0)
            } else {
                Ok((0, p0))
            };
            match r1 {
                Err(e) => Err(e),
                Ok((task, p1)) => {
                    let r2: Result<(Option<SpecTaskInputsSnapshottingResult>, int), ParseError> =
                        if kryo::spec_field_present(fl, 1) {
                        match spec_read_result(body, p1) {
                            Ok((res, p)) => Ok((Some(res), p)),
                            Err(e) => Err(e),
                        }
                    } else {
                        Ok((None, p1))
                    };
                    match r2 {
                        Err(e) => Err(e),
                        Ok((result, p2)) => {
                            let r3: Result<(i64, int), ParseError> = if kryo::spec_field_present(
                                fl,
                                2,
                            ) {
                                kryo::spec_read_task_id(body, p2)
                            } else {
                                Ok((0, p2))
                            };
                            match r3 {
                                Err(e) => Err(e),
                                Ok((failure_id, p3)) => Ok(
                                    SpecTaskInputsSnapshottingFinishedEvent {
                                        task: if kryo::spec_field_present(fl, 0) {
                                            Some(task)
                                        } else {
                                            None
                                        },
                                        result,
                                        failure_id: if kryo::spec_field_present(fl, 2) {
                                            Some(failure_id)
                                        } else {
                                            None
                                        },
                                    },
                                ),
                            }
                        },
                    }
                },
            }
        },
    }
}

/// Reads the nested result block.
fn decode_result(body: &[u8], pos: &mut usize) -> (r: Result<
    TaskInputsSnapshottingResult,
    ParseError,
>)
    requires
        *old(pos) <= body@.len(),
    ensures
        ({
            let sp = spec_read_result(body@, *old(pos) as int);
            match r {
                Ok(v) => sp matches Ok((se, p)) && v.deep_view() == se && *final(pos) == p
                    && *final(pos) <= body@.len(),
                Err(e) => sp == Err::<(SpecTaskInputsSnapshottingResult, int), ParseError>(e),
            }
        }),
{
    let flags = kryo::read_flags_byte(body, pos)?;
    let fl = flags as u16;
    let v_hash = if kryo::is_field_present(fl, 0) {
        kryo::read_byte_array(body, pos)?
    } else {
        Vec::new()
    };
    let v_implementation = if kryo::is_field_present(fl, 1) {
        kryo::read_task_id(body, pos)?
    } else {
        0
    };
    let v_property_names = if kryo::is_field_present(fl, 2) {
        kryo::read_task_id(body, pos)?
    } else {
        0
    };
    let v_value_inputs = if kryo::is_field_present(fl, 3) {
        kryo::read_task_id(body, pos)?
    } else {
        0
    };
    let v_file_inputs = if kryo::is_field_present(fl, 4) {
        kryo::read_list_of_i64(body, pos)?
    } else {
        Vec::new()
    };
    Ok(
        TaskInputsSnapshottingResult {
            hash: if kryo::is_field_present(fl, 0) {
                Some(v_hash)
            } else {
                None
            },
            implementation: if kryo::is_field_present(fl, 1) {
                Some(v_implementation)
            } else {
                None
            },
            property_names: if kryo::is_field_present(fl, 2) {
                Some(v_property_names)
            } else {
                None
            },
            value_inputs: if kryo::is_field_present(fl, 3) {
                Some(v_value_inputs)
            } else {
                None
            },
            file_inputs: v_file_inputs,
        },
    )
}

impl TaskInputsSnapshottingFinishedDecoder {
    /// Decodes a wire-349 body.
    pub fn decode(&self, body: &[u8]) -> (r: Result<DecodedEvent, ParseError>)
        ensures
            ({
                let sp = spec_decode(body@);
                match r {
                    Ok(d) => sp matches Ok(se) && d matches
                        DecodedEvent::TaskInputsSnapshottingFinished(e) && e.deep_view() == se,
                    Err(e) => sp == Err::<SpecTaskInputsSnapshottingFinishedEvent, ParseError>(e),
                }
            }),
    {
        let mut pos: usize = 0;
        let flags = kryo::read_flags_byte(body, &mut pos)?;
        let fl = flags as u16;
        let v_task = if kryo::is_field_present(fl, 0) {
            kryo::read_task_id(body, &mut pos)?
        } else {
            0
        };
        let v_result = if kryo::is_field_present(fl, 1) {
            Some(decode_result(body, &mut pos)?)
        } else {
            None
        };
        let v_failure_id = if kryo::is_field_present(fl, 2) {
            kryo::read_task_id(body, &mut pos)?
        } else {
            0
        };
        Ok(
            DecodedEvent::TaskInputsSnapshottingFinished(
                TaskInputsSnapshottingFinishedEvent {
                    task: if kryo::is_field_present(fl, 0) {
                        Some(v_task)
                    } else {
                        None
                    },
                    result: v_result,
                    failure_id: if kryo::is_field_present(fl, 2) {
                        Some(v_failure_id)
                    } else {
                        None
                    },
                },
            ),
        )
    }
}

} // verus!

//! Wire 94: the task id alone, fixed little-endian.

use vstd::prelude::*;

use crate::error::ParseError;
use crate::events::{DecodedEvent, TaskInputsSnapshottingStartedEvent};
use crate::kryo;

verus! {

broadcast use crate::kryo::group_deep_view_eq;

pub struct TaskInputsSnapshottingStartedDecoder;

/// What decoding a wire-94 body yields.
pub open spec fn spec_decode(body: Seq<u8>) -> Result<TaskInputsSnapshottingStartedEvent, ParseError> {
    {
        let p0 = 0int;
        let r1: Result<(i64, int), ParseError> = kryo::spec_read_task_id(body, p0);
        match r1 {
            Err(e) => Err(e),
            Ok((x1, p1)) => {
                Ok(
                    TaskInputsSnapshottingStartedEvent {
                        task: x1,
                    },
                )
            },
        }
    }
}

impl TaskInputsSnapshottingStartedDecoder {
    /// Decodes a wire-94 body.
    pub fn decode(&self, body: &[u8]) -> (r: Result<DecodedEvent, ParseError>)
        ensures
            ({
                let sp = spec_decode(body@);
                match r {
                    Ok(d) => sp matches Ok(se) && d matches DecodedEvent::TaskInputsSnapshottingStarted(e)
                        && e.deep_view() == se,
                    Err(e) => sp == Err::<TaskInputsSnapshottingStartedEvent, ParseError>(e),
                }
            }),
    {
        let mut pos: usize = 0;
        let v_task = kryo::read_task_id(body, &mut pos)?;
        Ok(
            DecodedEvent::TaskInputsSnapshottingStarted(
                TaskInputsSnapshottingStartedEvent {
                    task: v_task,
                },
            ),
        )
    }
}

} // verus!

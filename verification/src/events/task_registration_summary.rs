//! Wire 122: the registered-task count, one unconditional int.

use vstd::prelude::*;

use crate::error::ParseError;
use crate::events::{DecodedEvent, TaskRegistrationSummaryEvent};
use crate::kryo;

verus! {

broadcast use crate::kryo::group_deep_view_eq;

pub struct TaskRegistrationSummaryDecoder;

/// What decoding a wire-122 body yields.
pub open spec fn spec_decode(body: Seq<u8>) -> Result<TaskRegistrationSummaryEvent, ParseError> {
    {
        let p0 = 0int;
        let r1: Result<(i32, int), ParseError> = kryo::spec_read_positive_varint_i32(body, p0);
        match r1 {
            Err(e) => Err(e),
            Ok((x1, p1)) => {
                Ok(
                    TaskRegistrationSummaryEvent {
                        task_count: x1,
                    },
                )
            },
        }
    }
}

impl TaskRegistrationSummaryDecoder {
    /// Decodes a wire-122 body.
    pub fn decode(&self, body: &[u8]) -> (r: Result<DecodedEvent, ParseError>)
        ensures
            ({
                let sp = spec_decode(body@);
                match r {
                    Ok(d) => sp matches Ok(se) && d matches DecodedEvent::TaskRegistrationSummary(e)
                        && e.deep_view() == se,
                    Err(e) => sp == Err::<TaskRegistrationSummaryEvent, ParseError>(e),
                }
            }),
    {
        let mut pos: usize = 0;
        let v_task_count = kryo::read_positive_varint_i32(body, &mut pos)?;
        Ok(
            DecodedEvent::TaskRegistrationSummary(
                TaskRegistrationSummaryEvent {
                    task_count: v_task_count,
                },
            ),
        )
    }
}

} // verus!

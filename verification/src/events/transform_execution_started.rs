//! Wire 138: a single unconditional zigzag id.

use vstd::prelude::*;

use crate::error::ParseError;
use crate::events::{DecodedEvent, TransformExecutionStartedEvent};
use crate::kryo;

verus! {

broadcast use crate::kryo::group_deep_view_eq;

pub struct TransformExecutionStartedDecoder;

/// What decoding a wire-138 body yields.
pub open spec fn spec_decode(body: Seq<u8>) -> Result<TransformExecutionStartedEvent, ParseError> {
    {
        let p0 = 0int;
        let r1: Result<(i64, int), ParseError> = kryo::spec_read_zigzag_i64(body, p0);
        match r1 {
            Err(e) => Err(e),
            Ok((x1, p1)) => {
                Ok(
                    TransformExecutionStartedEvent {
                        id: x1,
                    },
                )
            },
        }
    }
}

impl TransformExecutionStartedDecoder {
    /// Decodes a wire-138 body.
    pub fn decode(&self, body: &[u8]) -> (r: Result<DecodedEvent, ParseError>)
        ensures
            ({
                let sp = spec_decode(body@);
                match r {
                    Ok(d) => sp matches Ok(se) && d matches DecodedEvent::TransformExecutionStarted(e)
                        && e.deep_view() == se,
                    Err(e) => sp == Err::<TransformExecutionStartedEvent, ParseError>(e),
                }
            }),
    {
        let mut pos: usize = 0;
        let v_id = kryo::read_zigzag_i64(body, &mut pos)?;
        Ok(
            DecodedEvent::TransformExecutionStarted(
                TransformExecutionStartedEvent {
                    id: v_id,
                },
            ),
        )
    }
}

} // verus!

//! Wire 12: the processor count, one unconditional int.

use vstd::prelude::*;

use crate::error::ParseError;
use crate::events::{DecodedEvent, HardwareEvent};
use crate::kryo;

verus! {

broadcast use crate::kryo::group_deep_view_eq;

pub struct HardwareDecoder;

/// What decoding a wire-12 body yields.
pub open spec fn spec_decode(body: Seq<u8>) -> Result<HardwareEvent, ParseError> {
    {
        let p0 = 0int;
        let r1: Result<(i32, int), ParseError> = kryo::spec_read_positive_varint_i32(body, p0);
        match r1 {
            Err(e) => Err(e),
            Ok((x1, p1)) => {
                Ok(
                    HardwareEvent {
                        num_processors: x1,
                    },
                )
            },
        }
    }
}

impl HardwareDecoder {
    /// Decodes a wire-12 body.
    pub fn decode(&self, body: &[u8]) -> (r: Result<DecodedEvent, ParseError>)
        ensures
            ({
                let sp = spec_decode(body@);
                match r {
                    Ok(d) => sp matches Ok(se) && d matches DecodedEvent::Hardware(e)
                        && e.deep_view() == se,
                    Err(e) => sp == Err::<HardwareEvent, ParseError>(e),
                }
            }),
    {
        let mut pos: usize = 0;
        let v_num_processors = kryo::read_positive_varint_i32(body, &mut pos)?;
        Ok(
            DecodedEvent::Hardware(
                HardwareEvent {
                    num_processors: v_num_processors,
                },
            ),
        )
    }
}

} // verus!

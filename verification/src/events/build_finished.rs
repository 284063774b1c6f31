//! Wire 259: a single nullable failure id.

use vstd::prelude::*;

use crate::error::ParseError;
use crate::events::{DecodedEvent, BuildFinishedEvent};
use crate::kryo;

verus! {

broadcast use crate::kryo::group_deep_view_eq;

pub struct BuildFinishedDecoder;

/// What decoding a wire-259 body yields.
pub open spec fn spec_decode(body: Seq<u8>) -> Result<BuildFinishedEvent, ParseError> {
    match kryo::spec_read_flags_byte(body, 0) {
        Err(e) => Err(e),
        Ok((flags, p0)) => {
            let fl = flags as u16;
            let r1: Result<(i64, int), ParseError> = if kryo::spec_field_present(fl, 0) {
                kryo::spec_read_zigzag_i64(body, p0)
            } else {
                Ok((0, p0))
            };
            match r1 {
                Err(e) => Err(e),
                Ok((x1, p1)) => {
                    Ok(
                        BuildFinishedEvent {
                            failure_id: if kryo::spec_field_present(fl, 0) { Some(x1) } else { None },
                        },
                    )
                },
            }
        },
    }
}

impl BuildFinishedDecoder {
    /// Decodes a wire-259 body.
    pub fn decode(&self, body: &[u8]) -> (r: Result<DecodedEvent, ParseError>)
        ensures
            ({
                let sp = spec_decode(body@);
                match r {
                    Ok(d) => sp matches Ok(se) && d matches DecodedEvent::BuildFinished(e)
                        && e.deep_view() == se,
                    Err(e) => sp == Err::<BuildFinishedEvent, ParseError>(e),
                }
            }),
    {
        let mut pos: usize = 0;
        let flags = kryo::read_flags_byte(body, &mut pos)?;
        let fl = flags as u16;
        let v_failure_id = if kryo::is_field_present(fl, 0) {
            kryo::read_zigzag_i64(body, &mut pos)?
        } else {
            0
        };
        Ok(
            DecodedEvent::BuildFinished(
                BuildFinishedEvent {
                    failure_id: if kryo::is_field_present(fl, 0) { Some(v_failure_id) } else { None },
                },
            ),
        )
    }
}

} // verus!

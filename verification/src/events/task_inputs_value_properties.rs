//! Wire 95: value-property hashes.

use vstd::prelude::*;

use crate::error::ParseError;
use crate::events::{DecodedEvent, TaskInputsValuePropertiesEvent, SpecTaskInputsValuePropertiesEvent};
use crate::kryo;

verus! {

broadcast use crate::kryo::group_deep_view_eq;

pub struct TaskInputsValuePropertiesDecoder;

/// What decoding a wire-95 body yields.
pub open spec fn spec_decode(body: Seq<u8>) -> Result<SpecTaskInputsValuePropertiesEvent, ParseError> {
    match kryo::spec_read_flags_byte(body, 0) {
        Err(e) => Err(e),
        Ok((flags, p0)) => {
            let fl = flags as u16;
            let r1: Result<(i64, int), ParseError> = if kryo::spec_field_present(fl, 0) {
                kryo::spec_read_task_id(body, p0)
            } else {
                Ok((0, p0))
            };
            match r1 {
                Err(e) => Err(e),
                Ok((x1, p1)) => {
                    let r2: Result<(Seq<Seq<u8>>, int), ParseError> = if kryo::spec_field_present(fl, 1) {
                        kryo::spec_read_list_of_byte_arrays(body, p1)
                    } else {
                        Ok((Seq::empty(), p1))
                    };
                    match r2 {
                        Err(e) => Err(e),
                        Ok((x2, p2)) => {
                            Ok(
                                SpecTaskInputsValuePropertiesEvent {
                                    id: if kryo::spec_field_present(fl, 0) { Some(x1) } else { None },
                                    hashes: x2,
                                },
                            )
                        },
                    }
                },
            }
        },
    }
}

impl TaskInputsValuePropertiesDecoder {
    /// Decodes a wire-95 body.
    pub fn decode(&self, body: &[u8]) -> (r: Result<DecodedEvent, ParseError>)
        ensures
            ({
                let sp = spec_decode(body@);
                match r {
                    Ok(d) => sp matches Ok(se) && d matches DecodedEvent::TaskInputsValueProperties(e)
                        && e.deep_view() == se,
                    Err(e) => sp == Err::<SpecTaskInputsValuePropertiesEvent, ParseError>(e),
                }
            }),
    {
        let mut pos: usize = 0;
        let flags = kryo::read_flags_byte(body, &mut pos)?;
        let fl = flags as u16;
        let v_id = if kryo::is_field_present(fl, 0) {
            kryo::read_task_id(body, &mut pos)?
        } else {
            0
        };
        let v_hashes = if kryo::is_field_present(fl, 1) {
            kryo::read_list_of_byte_arrays(body, &mut pos)?
        } else {
            Vec::new()
        };
        Ok(
            DecodedEvent::TaskInputsValueProperties(
                TaskInputsValuePropertiesEvent {
                    id: if kryo::is_field_present(fl, 0) { Some(v_id) } else { None },
                    hashes: v_hashes,
                },
            ),
        )
    }
}

} // verus!

//! Wire 345: one file property: attributes, hash and root ids.

use vstd::prelude::*;

use crate::error::ParseError;
use crate::events::{DecodedEvent, TaskInputsFilePropertyEvent, SpecTaskInputsFilePropertyEvent};
use crate::kryo;

verus! {

broadcast use crate::kryo::group_deep_view_eq;

pub struct TaskInputsFilePropertyDecoder;

/// What decoding a wire-345 body yields.
pub open spec fn spec_decode(body: Seq<u8>) -> Result<SpecTaskInputsFilePropertyEvent, ParseError> {
    match kryo::spec_read_flags_byte(body, 0) {
        Err(e) => Err(e),
        Ok((flags, p0)) => {
            let fl = flags as u16;
            let t0 = Seq::<Seq<char>>::empty();
            let r1: Result<(i64, int), ParseError> = if kryo::spec_field_present(fl, 0) {
                kryo::spec_read_task_id(body, p0)
            } else {
                Ok((0, p0))
            };
            match r1 {
                Err(e) => Err(e),
                Ok((x1, p1)) => {
                    let r2: Result<(Seq<Seq<char>>, int, Seq<Seq<char>>), ParseError> = if kryo::spec_field_present(fl, 1) {
                        kryo::spec_read_list_of_interned_strings(body, p1, t0)
                    } else {
                        Ok((Seq::empty(), p1, t0))
                    };
                    match r2 {
                        Err(e) => Err(e),
                        Ok((x2, p2, t2)) => {
                            let r3: Result<(Seq<u8>, int), ParseError> = if kryo::spec_field_present(fl, 2) {
                                kryo::spec_read_byte_array(body, p2)
                            } else {
                                Ok((Seq::empty(), p2))
                            };
                            match r3 {
                                Err(e) => Err(e),
                                Ok((x3, p3)) => {
                                    let r4: Result<(Seq<i64>, int), ParseError> = if kryo::spec_field_present(fl, 3) {
                                        kryo::spec_read_list_of_i64(body, p3)
                                    } else {
                                        Ok((Seq::empty(), p3))
                                    };
                                    match r4 {
                                        Err(e) => Err(e),
                                        Ok((x4, p4)) => {
                                            Ok(
                                                SpecTaskInputsFilePropertyEvent {
                                                    id: if kryo::spec_field_present(fl, 0) { Some(x1) } else { None },
                                                    attributes: x2,
                                                    hash: if kryo::spec_field_present(fl, 2) { Some(x3) } else { None },
                                                    roots: x4,
                                                },
                                            )
                                        },
                                    }
                                },
                            }
                        },
                    }
                },
            }
        },
    }
}

impl TaskInputsFilePropertyDecoder {
    /// Decodes a wire-345 body.
    pub fn decode(&self, body: &[u8]) -> (r: Result<DecodedEvent, ParseError>)
        ensures
            ({
                let sp = spec_decode(body@);
                match r {
                    Ok(d) => sp matches Ok(se) && d matches DecodedEvent::TaskInputsFileProperty(e)
                        && e.deep_view() == se,
                    Err(e) => sp == Err::<SpecTaskInputsFilePropertyEvent, ParseError>(e),
                }
            }),
    {
        let mut pos: usize = 0;
        let flags = kryo::read_flags_byte(body, &mut pos)?;
        let fl = flags as u16;
        let mut table = kryo::StringInternTable::new();
        let v_id = if kryo::is_field_present(fl, 0) {
            kryo::read_task_id(body, &mut pos)?
        } else {
            0
        };
        let v_attributes = if kryo::is_field_present(fl, 1) {
            kryo::read_list_of_interned_strings(body, &mut pos, &mut table)?
        } else {
            Vec::new()
        };
        let v_hash = if kryo::is_field_present(fl, 2) {
            kryo::read_byte_array(body, &mut pos)?
        } else {
            Vec::new()
        };
        let v_roots = if kryo::is_field_present(fl, 3) {
            kryo::read_list_of_i64(body, &mut pos)?
        } else {
            Vec::new()
        };
        Ok(
            DecodedEvent::TaskInputsFileProperty(
                TaskInputsFilePropertyEvent {
                    id: if kryo::is_field_present(fl, 0) { Some(v_id) } else { None },
                    attributes: v_attributes,
                    hash: if kryo::is_field_present(fl, 2) { Some(v_hash) } else { None },
                    roots: v_roots,
                },
            ),
        )
    }
}

} // verus!

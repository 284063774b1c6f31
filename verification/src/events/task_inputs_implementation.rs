//! Wire 91: class-loader hashes and action class names.

use vstd::prelude::*;

use crate::error::ParseError;
use crate::events::{DecodedEvent, TaskInputsImplementationEvent, SpecTaskInputsImplementationEvent};
use crate::kryo;

verus! {

broadcast use crate::kryo::group_deep_view_eq;

pub struct TaskInputsImplementationDecoder;

/// What decoding a wire-91 body yields.
pub open spec fn spec_decode(body: Seq<u8>) -> Result<SpecTaskInputsImplementationEvent, ParseError> {
    match kryo::spec_read_flags_byte(body, 0) {
        Err(e) => Err(e),
        Ok((flags, p0)) => {
            let fl = flags as u16;
            let t0 = Seq::<Seq<char>>::empty();
            let r1: Result<(i64, int), ParseError> = if kryo::spec_field_present(fl, 0) {
                kryo::spec_read_task_id(body, p0)
            } else {
                Ok((0, p0))
            };
            match r1 {
                Err(e) => Err(e),
                Ok((x1, p1)) => {
                    let r2: Result<(Seq<u8>, int), ParseError> = if kryo::spec_field_present(fl, 1) {
                        kryo::spec_read_byte_array(body, p1)
                    } else {
                        Ok((Seq::empty(), p1))
                    };
                    match r2 {
                        Err(e) => Err(e),
                        Ok((x2, p2)) => {
                            let r3: Result<(Seq<Seq<u8>>, int), ParseError> = if kryo::spec_field_present(fl, 2) {
                                kryo::spec_read_list_of_byte_arrays(body, p2)
                            } else {
                                Ok((Seq::empty(), p2))
                            };
                            match r3 {
                                Err(e) => Err(e),
                                Ok((x3, p3)) => {
                                    let r4: Result<(Seq<Seq<char>>, int, Seq<Seq<char>>), ParseError> = if kryo::spec_field_present(fl, 3) {
                                        kryo::spec_read_list_of_interned_strings(body, p3, t0)
                                    } else {
                                        Ok((Seq::empty(), p3, t0))
                                    };
                                    match r4 {
                                        Err(e) => Err(e),
                                        Ok((x4, p4, t4)) => {
                                            Ok(
                                                SpecTaskInputsImplementationEvent {
                                                    id: if kryo::spec_field_present(fl, 0) { Some(x1) } else { None },
                                                    class_loader_hash: if kryo::spec_field_present(fl, 1) { Some(x2) } else { None },
                                                    action_class_loader_hashes: x3,
                                                    action_class_names: x4,
                                                },
                                            )
                                        },
                                    }
                                },
                            }
                        },
                    }
                },
            }
        },
    }
}

impl TaskInputsImplementationDecoder {
    /// Decodes a wire-91 body.
    pub fn decode(&self, body: &[u8]) -> (r: Result<DecodedEvent, ParseError>)
        ensures
            ({
                let sp = spec_decode(body@);
                match r {
                    Ok(d) => sp matches Ok(se) && d matches DecodedEvent::TaskInputsImplementation(e)
                        && e.deep_view() == se,
                    Err(e) => sp == Err::<SpecTaskInputsImplementationEvent, ParseError>(e),
                }
            }),
    {
        let mut pos: usize = 0;
        let flags = kryo::read_flags_byte(body, &mut pos)?;
        let fl = flags as u16;
        let mut table = kryo::StringInternTable::new();
        let v_id = if kryo::is_field_present(fl, 0) {
            kryo::read_task_id(body, &mut pos)?
        } else {
            0
        };
        let v_class_loader_hash = if kryo::is_field_present(fl, 1) {
            kryo::read_byte_array(body, &mut pos)?
        } else {
            Vec::new()
        };
        let v_action_class_loader_hashes = if kryo::is_field_present(fl, 2) {
            kryo::read_list_of_byte_arrays(body, &mut pos)?
        } else {
            Vec::new()
        };
        let v_action_class_names = if kryo::is_field_present(fl, 3) {
            kryo::read_list_of_interned_strings(body, &mut pos, &mut table)?
        } else {
            Vec::new()
        };
        Ok(
            DecodedEvent::TaskInputsImplementation(
                TaskInputsImplementationEvent {
                    id: if kryo::is_field_present(fl, 0) { Some(v_id) } else { None },
                    class_loader_hash: if kryo::is_field_present(fl, 1) { Some(v_class_loader_hash) } else { None },
                    action_class_loader_hashes: v_action_class_loader_hashes,
                    action_class_names: v_action_class_names,
                },
            ),
        )
    }
}

} // verus!

//! Wire 136: what a transform is: names, classes and attribute lists.

use vstd::prelude::*;

use crate::error::ParseError;
use crate::events::{DecodedEvent, TransformIdentificationEvent, SpecTransformIdentificationEvent};
use crate::kryo;

verus! {

broadcast use crate::kryo::group_deep_view_eq;

pub struct TransformIdentificationDecoder;

/// What decoding a wire-136 body yields.
pub open spec fn spec_decode(body: Seq<u8>) -> Result<SpecTransformIdentificationEvent, ParseError> {
    match kryo::spec_read_flags_byte(body, 0) {
        Err(e) => Err(e),
        Ok((flags, p0)) => {
            let fl = flags as u16;
            let t0 = Seq::<Seq<char>>::empty();
            let r1: Result<(i64, int), ParseError> = if kryo::spec_field_present(fl, 0) {
                kryo::spec_read_zigzag_i64(body, p0)
            } else {
                Ok((0, p0))
            };
            match r1 {
                Err(e) => Err(e),
                Ok((x1, p1)) => {
                    let r2: Result<(i32, int), ParseError> = if kryo::spec_field_present(fl, 1) {
                        kryo::spec_read_positive_varint_i32(body, p1)
                    } else {
                        Ok((0, p1))
                    };
                    match r2 {
                        Err(e) => Err(e),
                        Ok((x2, p2)) => {
                            let r3: Result<(Seq<char>, int, Seq<Seq<char>>), ParseError> = if kryo::spec_field_present(fl, 2) {
                                kryo::spec_read_string(body, p2, t0)
                            } else {
                                Ok((Seq::empty(), p2, t0))
                            };
                            match r3 {
                                Err(e) => Err(e),
                                Ok((x3, p3, t3)) => {
                                    let r4: Result<(Seq<char>, int, Seq<Seq<char>>), ParseError> = if kryo::spec_field_present(fl, 3) {
                                        kryo::spec_read_string(body, p3, t3)
                                    } else {
                                        Ok((Seq::empty(), p3, t3))
                                    };
                                    match r4 {
                                        Err(e) => Err(e),
                                        Ok((x4, p4, t4)) => {
                                            let r5: Result<(Seq<i32>, int), ParseError> = if kryo::spec_field_present(fl, 4) {
                                                kryo::spec_read_list_of_positive_varint_i32(body, p4)
                                            } else {
                                                Ok((Seq::empty(), p4))
                                            };
                                            match r5 {
                                                Err(e) => Err(e),
                                                Ok((x5, p5)) => {
                                                    let r6: Result<(Seq<i32>, int), ParseError> = if kryo::spec_field_present(fl, 5) {
                                                        kryo::spec_read_list_of_positive_varint_i32(body, p5)
                                                    } else {
                                                        Ok((Seq::empty(), p5))
                                                    };
                                                    match r6 {
                                                        Err(e) => Err(e),
                                                        Ok((x6, p6)) => {
                                                            Ok(
                                                                SpecTransformIdentificationEvent {
                                                                    id: x1,
                                                                    component_identity: x2,
                                                                    input_artifact_name: x3,
                                                                    transform_action_class: x4,
                                                                    from_attributes: x5,
                                                                    to_attributes: x6,
                                                                },
                                                            )
                                                        },
                                                    }
                                                },
                                            }
                                        },
                                    }
                                },
                            }
                        },
                    }
                },
            }
        },
    }
}

impl TransformIdentificationDecoder {
    /// Decodes a wire-136 body.
    pub fn decode(&self, body: &[u8]) -> (r: Result<DecodedEvent, ParseError>)
        ensures
            ({
                let sp = spec_decode(body@);
                match r {
                    Ok(d) => sp matches Ok(se) && d matches DecodedEvent::TransformIdentification(e)
                        && e.deep_view() == se,
                    Err(e) => sp == Err::<SpecTransformIdentificationEvent, ParseError>(e),
                }
            }),
    {
        let mut pos: usize = 0;
        let flags = kryo::read_flags_byte(body, &mut pos)?;
        let fl = flags as u16;
        let mut table = kryo::StringInternTable::new();
        let v_id = if kryo::is_field_present(fl, 0) {
            kryo::read_zigzag_i64(body, &mut pos)?
        } else {
            0
        };
        let v_component_identity = if kryo::is_field_present(fl, 1) {
            kryo::read_positive_varint_i32(body, &mut pos)?
        } else {
            0
        };
        let v_input_artifact_name = if kryo::is_field_present(fl, 2) {
            table.read_string(body, &mut pos)?
        } else {
            String::new()
        };
        let v_transform_action_class = if kryo::is_field_present(fl, 3) {
            table.read_string(body, &mut pos)?
        } else {
            String::new()
        };
        let v_from_attributes = if kryo::is_field_present(fl, 4) {
            kryo::read_list_of_positive_varint_i32(body, &mut pos)?
        } else {
            Vec::new()
        };
        let v_to_attributes = if kryo::is_field_present(fl, 5) {
            kryo::read_list_of_positive_varint_i32(body, &mut pos)?
        } else {
            Vec::new()
        };
        Ok(
            DecodedEvent::TransformIdentification(
                TransformIdentificationEvent {
                    id: v_id,
                    component_identity: v_component_identity,
                    input_artifact_name: v_input_artifact_name,
                    transform_action_class: v_transform_action_class,
                    from_attributes: v_from_attributes,
                    to_attributes: v_to_attributes,
                },
            ),
        )
    }
}

} // verus!

//! Wire 1563: task start; the parent reference is read and discarded.

use vstd::prelude::*;

use crate::error::ParseError;
use crate::events::{DecodedEvent, TaskStartedEvent, SpecTaskStartedEvent};
use crate::kryo;
use crate::varint;

verus! {

broadcast use crate::kryo::group_deep_view_eq;

pub struct TaskStartedDecoder;

/// What decoding a wire-1563 body yields.
pub open spec fn spec_decode(body: Seq<u8>) -> Result<SpecTaskStartedEvent, ParseError> {
    match kryo::spec_read_flags_byte(body, 0) {
        Err(e) => Err(e),
        Ok((flags, p0)) => {
            let fl = flags as u16;
            let t0 = Seq::<Seq<char>>::empty();
            let r1: Result<(i64, int), ParseError> = if kryo::spec_field_present(fl, 0) {
                kryo::spec_read_zigzag_i64(body, p0)
            } else {
                Ok((0, p0))
            };
            match r1 {
                Err(e) => Err(e),
                Ok((x1, p1)) => {
                    let r2: Result<(Seq<char>, int, Seq<Seq<char>>), ParseError> = if kryo::spec_field_present(fl, 1) {
                        kryo::spec_read_string(body, p1, t0)
                    } else {
                        Ok((Seq::empty(), p1, t0))
                    };
                    match r2 {
                        Err(e) => Err(e),
                        Ok((x2, p2, t2)) => {
                            let r3: Result<(Seq<char>, int, Seq<Seq<char>>), ParseError> = if kryo::spec_field_present(fl, 2) {
                                kryo::spec_read_string(body, p2, t2)
                            } else {
                                Ok((Seq::empty(), p2, t2))
                            };
                            match r3 {
                                Err(e) => Err(e),
                                Ok((x3, p3, t3)) => {
                                    let r4: Result<(Seq<char>, int, Seq<Seq<char>>), ParseError> = if kryo::spec_field_present(fl, 3) {
                                        kryo::spec_read_string(body, p3, t3)
                                    } else {
                                        Ok((Seq::empty(), p3, t3))
                                    };
                                    match r4 {
                                        Err(e) => Err(e),
                                        Ok((x4, p4, t4)) => {
                                            let r5: Result<int, ParseError> = if kryo::spec_field_present(fl, 4) {
                                                match kryo::spec_read_flags_byte(body, p4) {
                                                    Err(e) => Err(e),
                                                    Ok((pf, q0)) => {
                                                        let pfl = pf as u16;
                                                        let q1r: Result<int, ParseError> = if kryo::spec_field_present(pfl, 0) {
                                                            match varint::spec_varint(body, q0) {
                                                                Ok((u, q)) => Ok(q),
                                                                Err(e) => Err(e),
                                                            }
                                                        } else {
                                                            Ok(q0)
                                                        };
                                                        match q1r {
                                                            Err(e) => Err(e),
                                                            Ok(q1) => if kryo::spec_field_present(pfl, 1) {
                                                                match kryo::spec_read_zigzag_i64(body, q1) {
                                                                    Ok((v, q)) => Ok(q),
                                                                    Err(e) => Err(e),
                                                                }
                                                            } else {
                                                                Ok(q1)
                                                            },
                                                        }
                                                    },
                                                }
                                            } else {
                                                Ok(p4)
                                            };
                                            match r5 {
                                                Err(e) => Err(e),
                                                Ok(p5) => Ok(
                                                    SpecTaskStartedEvent {
                                                        id: x1,
                                                        build_path: x2,
                                                        path: x3,
                                                        class_name: if kryo::spec_field_present(fl, 3) { Some(x4) } else { None },
                                                    },
                                                ),
                                            }
                                        },
                                    }
                                },
                            }
                        },
                    }
                },
            }
        },
    }
}

impl TaskStartedDecoder {
    /// Decodes a wire-1563 body.
    pub fn decode(&self, body: &[u8]) -> (r: Result<DecodedEvent, ParseError>)
        ensures
            ({
                let sp = spec_decode(body@);
                match r {
                    Ok(d) => sp matches Ok(se) && d matches DecodedEvent::TaskStarted(e)
                        && e.deep_view() == se,
                    Err(e) => sp == Err::<SpecTaskStartedEvent, ParseError>(e),
                }
            }),
    {
        let mut pos: usize = 0;
        let flags = kryo::read_flags_byte(body, &mut pos)?;
        let fl = flags as u16;
        let mut table = kryo::StringInternTable::new();
        let v_id = if kryo::is_field_present(fl, 0) {
            kryo::read_zigzag_i64(body, &mut pos)?
        } else {
            0
        };
        let v_build_path = if kryo::is_field_present(fl, 1) {
            table.read_string(body, &mut pos)?
        } else {
            String::new()
        };
        let v_path = if kryo::is_field_present(fl, 2) {
            table.read_string(body, &mut pos)?
        } else {
            String::new()
        };
        let v_class_name = if kryo::is_field_present(fl, 3) {
            table.read_string(body, &mut pos)?
        } else {
            String::new()
        };
        if kryo::is_field_present(fl, 4) {
            let parent_flags = kryo::read_flags_byte(body, &mut pos)?;
            let pfl = parent_flags as u16;
            if kryo::is_field_present(pfl, 0) {
                let _parent_kind = varint::read_unsigned_varint(body, &mut pos)?;
            }
            if kryo::is_field_present(pfl, 1) {
                let _parent_id = kryo::read_zigzag_i64(body, &mut pos)?;
            }
        }
        Ok(
            DecodedEvent::TaskStarted(
                TaskStartedEvent {
                    id: v_id,
                    build_path: v_build_path,
                    path: v_path,
                    class_name: if kryo::is_field_present(fl, 3) { Some(v_class_name) } else { None },
                },
            ),
        )
    }
}

} // verus!

//! Wire 117: task identity; correlation id and the two paths.

use vstd::prelude::*;

use crate::error::ParseError;
use crate::events::{DecodedEvent, TaskIdentityEvent, SpecTaskIdentityEvent};
use crate::kryo;

verus! {

broadcast use crate::kryo::group_deep_view_eq;

pub struct TaskIdentityDecoder;

/// What decoding a wire-117 body yields.
pub open spec fn spec_decode(body: Seq<u8>) -> Result<SpecTaskIdentityEvent, ParseError> {
    match kryo::spec_read_flags_byte(body, 0) {
        Err(e) => Err(e),
        Ok((flags, p0)) => {
            let fl = flags as u16;
            let t0 = Seq::<Seq<char>>::empty();
            let r1: Result<(i64, int), ParseError> = if kryo::spec_field_present(fl, 0) {
                kryo::spec_read_task_id(body, p0)
            } else {
                Ok((0, p0))
            };
            match r1 {
                Err(e) => Err(e),
                Ok((x1, p1)) => {
                    let r2: Result<(Seq<char>, int, Seq<Seq<char>>), ParseError> = if kryo::spec_field_present(fl, 1) {
                        kryo::spec_read_string(body, p1, t0)
                    } else {
                        Ok((Seq::empty(), p1, t0))
                    };
                    match r2 {
                        Err(e) => Err(e),
                        Ok((x2, p2, t2)) => {
                            let r3: Result<(Seq<char>, int, Seq<Seq<char>>), ParseError> = if kryo::spec_field_present(fl, 2) {
                                kryo::spec_read_string(body, p2, t2)
                            } else {
                                Ok((Seq::empty(), p2, t2))
                            };
                            match r3 {
                                Err(e) => Err(e),
                                Ok((x3, p3, t3)) => {
                                    Ok(
                                        SpecTaskIdentityEvent {
                                            id: x1,
                                            build_path: x2,
                                            task_path: x3,
                                        },
                                    )
                                },
                            }
                        },
                    }
                },
            }
        },
    }
}

impl TaskIdentityDecoder {
    /// Decodes a wire-117 body.
    pub fn decode(&self, body: &[u8]) -> (r: Result<DecodedEvent, ParseError>)
        ensures
            ({
                let sp = spec_decode(body@);
                match r {
                    Ok(d) => sp matches Ok(se) && d matches DecodedEvent::TaskIdentity(e)
                        && e.deep_view() == se,
                    Err(e) => sp == Err::<SpecTaskIdentityEvent, ParseError>(e),
                }
            }),
    {
        let mut pos: usize = 0;
        let flags = kryo::read_flags_byte(body, &mut pos)?;
        let fl = flags as u16;
        let mut table = kryo::StringInternTable::new();
        let v_id = if kryo::is_field_present(fl, 0) {
            kryo::read_task_id(body, &mut pos)?
        } else {
            0
        };
        let v_build_path = if kryo::is_field_present(fl, 1) {
            table.read_string(body, &mut pos)?
        } else {
            String::new()
        };
        let v_task_path = if kryo::is_field_present(fl, 2) {
            table.read_string(body, &mut pos)?
        } else {
            String::new()
        };
        Ok(
            DecodedEvent::TaskIdentity(
                TaskIdentityEvent {
                    id: v_id,
                    build_path: v_build_path,
                    task_path: v_task_path,
                },
            ),
        )
    }
}

} // verus!

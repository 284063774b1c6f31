//! Wire 5: requested and excluded task names.

use vstd::prelude::*;

use crate::error::ParseError;
use crate::events::{DecodedEvent, BuildRequestedTasksEvent, SpecBuildRequestedTasksEvent};
use crate::kryo;

verus! {

broadcast use crate::kryo::group_deep_view_eq;

pub struct BuildRequestedTasksDecoder;

/// What decoding a wire-5 body yields.
pub open spec fn spec_decode(body: Seq<u8>) -> Result<SpecBuildRequestedTasksEvent, ParseError> {
    match kryo::spec_read_flags_byte(body, 0) {
        Err(e) => Err(e),
        Ok((flags, p0)) => {
            let fl = flags as u16;
            let t0 = Seq::<Seq<char>>::empty();
            let r1: Result<(Seq<Seq<char>>, int, Seq<Seq<char>>), ParseError> = if kryo::spec_field_present(fl, 0) {
                kryo::spec_read_list_of_interned_strings(body, p0, t0)
            } else {
                Ok((Seq::empty(), p0, t0))
            };
            match r1 {
                Err(e) => Err(e),
                Ok((x1, p1, t1)) => {
                    let r2: Result<(Seq<Seq<char>>, int, Seq<Seq<char>>), ParseError> = if kryo::spec_field_present(fl, 1) {
                        kryo::spec_read_list_of_interned_strings(body, p1, t1)
                    } else {
                        Ok((Seq::empty(), p1, t1))
                    };
                    match r2 {
                        Err(e) => Err(e),
                        Ok((x2, p2, t2)) => {
                            Ok(
                                SpecBuildRequestedTasksEvent {
                                    requested: x1,
                                    excluded: x2,
                                },
                            )
                        },
                    }
                },
            }
        },
    }
}

impl BuildRequestedTasksDecoder {
    /// Decodes a wire-5 body.
    pub fn decode(&self, body: &[u8]) -> (r: Result<DecodedEvent, ParseError>)
        ensures
            ({
                let sp = spec_decode(body@);
                match r {
                    Ok(d) => sp matches Ok(se) && d matches DecodedEvent::BuildRequestedTasks(e)
                        && e.deep_view() == se,
                    Err(e) => sp == Err::<SpecBuildRequestedTasksEvent, ParseError>(e),
                }
            }),
    {
        let mut pos: usize = 0;
        let flags = kryo::read_flags_byte(body, &mut pos)?;
        let fl = flags as u16;
        let mut table = kryo::StringInternTable::new();
        let v_requested = if kryo::is_field_present(fl, 0) {
            kryo::read_list_of_interned_strings(body, &mut pos, &mut table)?
        } else {
            Vec::new()
        };
        let v_excluded = if kryo::is_field_present(fl, 1) {
            kryo::read_list_of_interned_strings(body, &mut pos, &mut table)?
        } else {
            Vec::new()
        };
        Ok(
            DecodedEvent::BuildRequestedTasks(
                BuildRequestedTasksEvent {
                    requested: v_requested,
                    excluded: v_excluded,
                },
            ),
        )
    }
}

} // verus!

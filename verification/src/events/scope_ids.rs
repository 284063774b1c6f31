//! Wire 39: build, workspace and user scope ids.

use vstd::prelude::*;

use crate::error::ParseError;
use crate::events::{DecodedEvent, ScopeIdsEvent, SpecScopeIdsEvent};
use crate::kryo;

verus! {

broadcast use crate::kryo::group_deep_view_eq;

pub struct ScopeIdsDecoder;

/// What decoding a wire-39 body yields.
pub open spec fn spec_decode(body: Seq<u8>) -> Result<SpecScopeIdsEvent, ParseError> {
    match kryo::spec_read_flags_byte(body, 0) {
        Err(e) => Err(e),
        Ok((flags, p0)) => {
            let fl = flags as u16;
            let t0 = Seq::<Seq<char>>::empty();
            let r1: Result<(Seq<char>, int, Seq<Seq<char>>), ParseError> = if kryo::spec_field_present(fl, 0) {
                kryo::spec_read_string(body, p0, t0)
            } else {
                Ok((Seq::empty(), p0, t0))
            };
            match r1 {
                Err(e) => Err(e),
                Ok((x1, p1, t1)) => {
                    let r2: Result<(Seq<char>, int, Seq<Seq<char>>), ParseError> = if kryo::spec_field_present(fl, 1) {
                        kryo::spec_read_string(body, p1, t1)
                    } else {
                        Ok((Seq::empty(), p1, t1))
                    };
                    match r2 {
                        Err(e) => Err(e),
                        Ok((x2, p2, t2)) => {
                            let r3: Result<(Seq<char>, int, Seq<Seq<char>>), ParseError> = if kryo::spec_field_present(fl, 2) {
                                kryo::spec_read_string(body, p2, t2)
                            } else {
                                Ok((Seq::empty(), p2, t2))
                            };
                            match r3 {
                                Err(e) => Err(e),
                                Ok((x3, p3, t3)) => {
                                    Ok(
                                        SpecScopeIdsEvent {
                                            build_invocation_id: if kryo::spec_field_present(fl, 0) { Some(x1) } else { None },
                                            workspace_id: if kryo::spec_field_present(fl, 1) { Some(x2) } else { None },
                                            user_id: if kryo::spec_field_present(fl, 2) { Some(x3) } else { None },
                                        },
                                    )
                                },
                            }
                        },
                    }
                },
            }
        },
    }
}

impl ScopeIdsDecoder {
    /// Decodes a wire-39 body.
    pub fn decode(&self, body: &[u8]) -> (r: Result<DecodedEvent, ParseError>)
        ensures
            ({
                let sp = spec_decode(body@);
                match r {
                    Ok(d) => sp matches Ok(se) && d matches DecodedEvent::ScopeIds(e)
                        && e.deep_view() == se,
                    Err(e) => sp == Err::<SpecScopeIdsEvent, ParseError>(e),
                }
            }),
    {
        let mut pos: usize = 0;
        let flags = kryo::read_flags_byte(body, &mut pos)?;
        let fl = flags as u16;
        let mut table = kryo::StringInternTable::new();
        let v_build_invocation_id = if kryo::is_field_present(fl, 0) {
            table.read_string(body, &mut pos)?
        } else {
            String::new()
        };
        let v_workspace_id = if kryo::is_field_present(fl, 1) {
            table.read_string(body, &mut pos)?
        } else {
            String::new()
        };
        let v_user_id = if kryo::is_field_present(fl, 2) {
            table.read_string(body, &mut pos)?
        } else {
            String::new()
        };
        Ok(
            DecodedEvent::ScopeIds(
                ScopeIdsEvent {
                    build_invocation_id: if kryo::is_field_present(fl, 0) { Some(v_build_invocation_id) } else { None },
                    workspace_id: if kryo::is_field_present(fl, 1) { Some(v_workspace_id) } else { None },
                    user_id: if kryo::is_field_present(fl, 2) { Some(v_user_id) } else { None },
                },
            ),
        )
    }
}

} // verus!

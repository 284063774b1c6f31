//! Wire 2: build agent; three nullable strings and a list of addresses.

use vstd::prelude::*;

use crate::error::ParseError;
use crate::events::{DecodedEvent, BuildAgentEvent, SpecBuildAgentEvent};
use crate::kryo;

verus! {

broadcast use crate::kryo::group_deep_view_eq;

pub struct BuildAgentDecoder;

/// What decoding a wire-2 body yields.
pub open spec fn spec_decode(body: Seq<u8>) -> Result<SpecBuildAgentEvent, ParseError> {
    match kryo::spec_read_flags_byte(body, 0) {
        Err(e) => Err(e),
        Ok((flags, p0)) => {
            let fl = flags as u16;
            let t0 = Seq::<Seq<char>>::empty();
            let r1: Result<(Seq<char>, int, Seq<Seq<char>>), ParseError> = if kryo::spec_field_present(fl, 0) {
                kryo::spec_read_string(body, p0, t0)
            } else {
                Ok((Seq::empty(), p0, t0))
            };
            match r1 {
                Err(e) => Err(e),
                Ok((x1, p1, t1)) => {
                    let r2: Result<(Seq<char>, int, Seq<Seq<char>>), ParseError> = if kryo::spec_field_present(fl, 1) {
                        kryo::spec_read_string(body, p1, t1)
                    } else {
                        Ok((Seq::empty(), p1, t1))
                    };
                    match r2 {
                        Err(e) => Err(e),
                        Ok((x2, p2, t2)) => {
                            let r3: Result<(Seq<char>, int, Seq<Seq<char>>), ParseError> = if kryo::spec_field_present(fl, 2) {
                                kryo::spec_read_string(body, p2, t2)
                            } else {
                                Ok((Seq::empty(), p2, t2))
                            };
                            match r3 {
                                Err(e) => Err(e),
                                Ok((x3, p3, t3)) => {
                                    let r4: Result<(Seq<Seq<char>>, int, Seq<Seq<char>>), ParseError> = if kryo::spec_field_present(fl, 3) {
                                        kryo::spec_read_list_of_interned_strings(body, p3, t3)
                                    } else {
                                        Ok((Seq::empty(), p3, t3))
                                    };
                                    match r4 {
                                        Err(e) => Err(e),
                                        Ok((x4, p4, t4)) => {
                                            Ok(
                                                SpecBuildAgentEvent {
                                                    username: if kryo::spec_field_present(fl, 0) { Some(x1) } else { None },
                                                    local_hostname: if kryo::spec_field_present(fl, 1) { Some(x2) } else { None },
                                                    public_hostname: if kryo::spec_field_present(fl, 2) { Some(x3) } else { None },
                                                    ip_addresses: x4,
                                                },
                                            )
                                        },
                                    }
                                },
                            }
                        },
                    }
                },
            }
        },
    }
}

impl BuildAgentDecoder {
    /// Decodes a wire-2 body.
    pub fn decode(&self, body: &[u8]) -> (r: Result<DecodedEvent, ParseError>)
        ensures
            ({
                let sp = spec_decode(body@);
                match r {
                    Ok(d) => sp matches Ok(se) && d matches DecodedEvent::BuildAgent(e)
                        && e.deep_view() == se,
                    Err(e) => sp == Err::<SpecBuildAgentEvent, ParseError>(e),
                }
            }),
    {
        let mut pos: usize = 0;
        let flags = kryo::read_flags_byte(body, &mut pos)?;
        let fl = flags as u16;
        let mut table = kryo::StringInternTable::new();
        let v_username = if kryo::is_field_present(fl, 0) {
            table.read_string(body, &mut pos)?
        } else {
            String::new()
        };
        let v_local_hostname = if kryo::is_field_present(fl, 1) {
            table.read_string(body, &mut pos)?
        } else {
            String::new()
        };
        let v_public_hostname = if kryo::is_field_present(fl, 2) {
            table.read_string(body, &mut pos)?
        } else {
            String::new()
        };
        let v_ip_addresses = if kryo::is_field_present(fl, 3) {
            kryo::read_list_of_interned_strings(body, &mut pos, &mut table)?
        } else {
            Vec::new()
        };
        Ok(
            DecodedEvent::BuildAgent(
                BuildAgentEvent {
                    username: if kryo::is_field_present(fl, 0) { Some(v_username) } else { None },
                    local_hostname: if kryo::is_field_present(fl, 1) { Some(v_local_hostname) } else { None },
                    public_hostname: if kryo::is_field_present(fl, 2) { Some(v_public_hostname) } else { None },
                    ip_addresses: v_ip_addresses,
                },
            ),
        )
    }
}

} // verus!

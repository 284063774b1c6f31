//! Wire 115: Java toolchain usage.

use vstd::prelude::*;

use crate::error::ParseError;
use crate::events::{DecodedEvent, JavaToolchainUsageEvent, SpecJavaToolchainUsageEvent};
use crate::kryo;

verus! {

broadcast use crate::kryo::group_deep_view_eq;

pub struct JavaToolchainUsageDecoder;

/// What decoding a wire-115 body yields.
pub open spec fn spec_decode(body: Seq<u8>) -> Result<SpecJavaToolchainUsageEvent, ParseError> {
    match kryo::spec_read_flags_byte(body, 0) {
        Err(e) => Err(e),
        Ok((flags, p0)) => {
            let fl = flags as u16;
            let t0 = Seq::<Seq<char>>::empty();
            let r1: Result<(i64, int), ParseError> = if kryo::spec_field_present(fl, 0) {
                kryo::spec_read_zigzag_i64(body, p0)
            } else {
                Ok((0, p0))
            };
            match r1 {
                Err(e) => Err(e),
                Ok((x1, p1)) => {
                    let r2: Result<(i64, int), ParseError> = if kryo::spec_field_present(fl, 1) {
                        kryo::spec_read_zigzag_i64(body, p1)
                    } else {
                        Ok((0, p1))
                    };
                    match r2 {
                        Err(e) => Err(e),
                        Ok((x2, p2)) => {
                            let r3: Result<(Seq<char>, int, Seq<Seq<char>>), ParseError> = if kryo::spec_field_present(fl, 2) {
                                kryo::spec_read_string(body, p2, t0)
                            } else {
                                Ok((Seq::empty(), p2, t0))
                            };
                            match r3 {
                                Err(e) => Err(e),
                                Ok((x3, p3, t3)) => {
                                    Ok(
                                        SpecJavaToolchainUsageEvent {
                                            task_id: x1,
                                            toolchain_id: x2,
                                            tool_name: x3,
                                        },
                                    )
                                },
                            }
                        },
                    }
                },
            }
        },
    }
}

impl JavaToolchainUsageDecoder {
    /// Decodes a wire-115 body.
    pub fn decode(&self, body: &[u8]) -> (r: Result<DecodedEvent, ParseError>)
        ensures
            ({
                let sp = spec_decode(body@);
                match r {
                    Ok(d) => sp matches Ok(se) && d matches DecodedEvent::JavaToolchainUsage(e)
                        && e.deep_view() == se,
                    Err(e) => sp == Err::<SpecJavaToolchainUsageEvent, ParseError>(e),
                }
            }),
    {
        let mut pos: usize = 0;
        let flags = kryo::read_flags_byte(body, &mut pos)?;
        let fl = flags as u16;
        let mut table = kryo::StringInternTable::new();
        let v_task_id = if kryo::is_field_present(fl, 0) {
            kryo::read_zigzag_i64(body, &mut pos)?
        } else {
            0
        };
        let v_toolchain_id = if kryo::is_field_present(fl, 1) {
            kryo::read_zigzag_i64(body, &mut pos)?
        } else {
            0
        };
        let v_tool_name = if kryo::is_field_present(fl, 2) {
            table.read_string(body, &mut pos)?
        } else {
            String::new()
        };
        Ok(
            DecodedEvent::JavaToolchainUsage(
                JavaToolchainUsageEvent {
                    task_id: v_task_id,
                    toolchain_id: v_toolchain_id,
                    tool_name: v_tool_name,
                },
            ),
        )
    }
}

} // verus!

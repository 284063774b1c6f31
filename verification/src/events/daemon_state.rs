//! Wire 265: daemon counters; the single-use boolean rides on a flag bit.

use vstd::prelude::*;

use crate::error::ParseError;
use crate::events::{DecodedEvent, DaemonStateEvent};
use crate::kryo;

verus! {

broadcast use crate::kryo::group_deep_view_eq;

pub struct DaemonStateDecoder;

/// What decoding a wire-265 body yields.
pub open spec fn spec_decode(body: Seq<u8>) -> Result<DaemonStateEvent, ParseError> {
    match kryo::spec_read_flags_byte(body, 0) {
        Err(e) => Err(e),
        Ok((flags, p0)) => {
            let fl = flags as u16;
            let r1: Result<(i64, int), ParseError> = if kryo::spec_field_present(fl, 0) {
                kryo::spec_read_positive_varint_i64(body, p0)
            } else {
                Ok((0, p0))
            };
            match r1 {
                Err(e) => Err(e),
                Ok((x1, p1)) => {
                    let r2: Result<(i32, int), ParseError> = if kryo::spec_field_present(fl, 1) {
                        kryo::spec_read_positive_varint_i32(body, p1)
                    } else {
                        Ok((0, p1))
                    };
                    match r2 {
                        Err(e) => Err(e),
                        Ok((x2, p2)) => {
                            let r3: Result<(i32, int), ParseError> = if kryo::spec_field_present(fl, 2) {
                                kryo::spec_read_positive_varint_i32(body, p2)
                            } else {
                                Ok((0, p2))
                            };
                            match r3 {
                                Err(e) => Err(e),
                                Ok((x3, p3)) => {
                                    let r4: Result<(i64, int), ParseError> = if kryo::spec_field_present(fl, 3) {
                                        kryo::spec_read_positive_varint_i64(body, p3)
                                    } else {
                                        Ok((0, p3))
                                    };
                                    match r4 {
                                        Err(e) => Err(e),
                                        Ok((x4, p4)) => {
                                            Ok(
                                                DaemonStateEvent {
                                                    start_time: if kryo::spec_field_present(fl, 0) { Some(x1) } else { None },
                                                    build_number: if kryo::spec_field_present(fl, 1) { Some(x2) } else { None },
                                                    number_of_running_daemons: if kryo::spec_field_present(fl, 2) { Some(x3) } else { None },
                                                    idle_timeout: if kryo::spec_field_present(fl, 3) { Some(x4) } else { None },
                                                    single_use: if kryo::spec_field_present(fl, 4) { Some(true) } else { None },
                                                },
                                            )
                                        },
                                    }
                                },
                            }
                        },
                    }
                },
            }
        },
    }
}

impl DaemonStateDecoder {
    /// Decodes a wire-265 body.
    pub fn decode(&self, body: &[u8]) -> (r: Result<DecodedEvent, ParseError>)
        ensures
            ({
                let sp = spec_decode(body@);
                match r {
                    Ok(d) => sp matches Ok(se) && d matches DecodedEvent::DaemonState(e)
                        && e.deep_view() == se,
                    Err(e) => sp == Err::<DaemonStateEvent, ParseError>(e),
                }
            }),
    {
        let mut pos: usize = 0;
        let flags = kryo::read_flags_byte(body, &mut pos)?;
        let fl = flags as u16;
        let v_start_time = if kryo::is_field_present(fl, 0) {
            kryo::read_positive_varint_i64(body, &mut pos)?
        } else {
            0
        };
        let v_build_number = if kryo::is_field_present(fl, 1) {
            kryo::read_positive_varint_i32(body, &mut pos)?
        } else {
            0
        };
        let v_number_of_running_daemons = if kryo::is_field_present(fl, 2) {
            kryo::read_positive_varint_i32(body, &mut pos)?
        } else {
            0
        };
        let v_idle_timeout = if kryo::is_field_present(fl, 3) {
            kryo::read_positive_varint_i64(body, &mut pos)?
        } else {
            0
        };
        Ok(
            DecodedEvent::DaemonState(
                DaemonStateEvent {
                    start_time: if kryo::is_field_present(fl, 0) { Some(v_start_time) } else { None },
                    build_number: if kryo::is_field_present(fl, 1) { Some(v_build_number) } else { None },
                    number_of_running_daemons: if kryo::is_field_present(fl, 2) { Some(v_number_of_running_daemons) } else { None },
                    idle_timeout: if kryo::is_field_present(fl, 3) { Some(v_idle_timeout) } else { None },
                    single_use: if kryo::is_field_present(fl, 4) { Some(true) } else { None },
                },
            ),
        )
    }
}

/// A flags byte with every field bit set yields all-absent fields, and the
/// decode consumes nothing beyond the flags word: every conditional read is
/// skipped and each value is its declared default.
pub proof fn lemma_all_bits_set_yields_all_absent(body: Seq<u8>, p: int)
    requires
        kryo::spec_read_flags_byte(body, 0) == Ok::<(u8, int), ParseError>((0x1f, p)),
    ensures
        spec_decode(body) == Ok::<DaemonStateEvent, ParseError>(
            DaemonStateEvent {
                start_time: None,
                build_number: None,
                number_of_running_daemons: None,
                idle_timeout: None,
                single_use: None,
            },
        ),
{
    assert((0x1fu16 >> 0) & 1 != 0 && (0x1fu16 >> 1) & 1 != 0 && (0x1fu16 >> 2) & 1 != 0 && (
    0x1fu16 >> 3) & 1 != 0 && (0x1fu16 >> 4) & 1 != 0) by (bit_vector);
}

} // verus!

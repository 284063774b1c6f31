//! Wire 15: locale and time zone.

use vstd::prelude::*;

use crate::error::ParseError;
use crate::events::{DecodedEvent, LocalityEvent, SpecLocalityEvent};
use crate::kryo;

verus! {

broadcast use crate::kryo::group_deep_view_eq;

pub struct LocalityDecoder;

/// What decoding a wire-15 body yields.
pub open spec fn spec_decode(body: Seq<u8>) -> Result<SpecLocalityEvent, ParseError> {
    match kryo::spec_read_flags_byte(body, 0) {
        Err(e) => Err(e),
        Ok((flags, p0)) => {
            let fl = flags as u16;
            let t0 = Seq::<Seq<char>>::empty();
            let r1: Result<(Seq<char>, int, Seq<Seq<char>>), ParseError> = if kryo::spec_field_present(fl, 0) {
                kryo::spec_read_string(body, p0, t0)
            } else {
                Ok((Seq::empty(), p0, t0))
            };
            match r1 {
                Err(e) => Err(e),
                Ok((x1, p1, t1)) => {
                    let r2: Result<(Seq<char>, int, Seq<Seq<char>>), ParseError> = if kryo::spec_field_present(fl, 1) {
                        kryo::spec_read_string(body, p1, t1)
                    } else {
                        Ok((Seq::empty(), p1, t1))
                    };
                    match r2 {
                        Err(e) => Err(e),
                        Ok((x2, p2, t2)) => {
                            let r3: Result<(Seq<char>, int, Seq<Seq<char>>), ParseError> = if kryo::spec_field_present(fl, 2) {
                                kryo::spec_read_string(body, p2, t2)
                            } else {
                                Ok((Seq::empty(), p2, t2))
                            };
                            match r3 {
                                Err(e) => Err(e),
                                Ok((x3, p3, t3)) => {
                                    let r4: Result<(Seq<char>, int, Seq<Seq<char>>), ParseError> = if kryo::spec_field_present(fl, 3) {
                                        kryo::spec_read_string(body, p3, t3)
                                    } else {
                                        Ok((Seq::empty(), p3, t3))
                                    };
                                    match r4 {
                                        Err(e) => Err(e),
                                        Ok((x4, p4, t4)) => {
                                            let r5: Result<(i32, int), ParseError> = if kryo::spec_field_present(fl, 4) {
                                                kryo::spec_read_positive_varint_i32(body, p4)
                                            } else {
                                                Ok((0, p4))
                                            };
                                            match r5 {
                                                Err(e) => Err(e),
                                                Ok((x5, p5)) => {
                                                    Ok(
                                                        SpecLocalityEvent {
                                                            locale_language: if kryo::spec_field_present(fl, 0) { Some(x1) } else { None },
                                                            locale_country: if kryo::spec_field_present(fl, 1) { Some(x2) } else { None },
                                                            locale_variant: if kryo::spec_field_present(fl, 2) { Some(x3) } else { None },
                                                            time_zone_id: if kryo::spec_field_present(fl, 3) { Some(x4) } else { None },
                                                            time_zone_offset_millis: if kryo::spec_field_present(fl, 4) { Some(x5) } else { None },
                                                        },
                                                    )
                                                },
                                            }
                                        },
                                    }
                                },
                            }
                        },
                    }
                },
            }
        },
    }
}

impl LocalityDecoder {
    /// Decodes a wire-15 body.
    pub fn decode(&self, body: &[u8]) -> (r: Result<DecodedEvent, ParseError>)
        ensures
            ({
                let sp = spec_decode(body@);
                match r {
                    Ok(d) => sp matches Ok(se) && d matches DecodedEvent::Locality(e)
                        && e.deep_view() == se,
                    Err(e) => sp == Err::<SpecLocalityEvent, ParseError>(e),
                }
            }),
    {
        let mut pos: usize = 0;
        let flags = kryo::read_flags_byte(body, &mut pos)?;
        let fl = flags as u16;
        let mut table = kryo::StringInternTable::new();
        let v_locale_language = if kryo::is_field_present(fl, 0) {
            table.read_string(body, &mut pos)?
        } else {
            String::new()
        };
        let v_locale_country = if kryo::is_field_present(fl, 1) {
            table.read_string(body, &mut pos)?
        } else {
            String::new()
        };
        let v_locale_variant = if kryo::is_field_present(fl, 2) {
            table.read_string(body, &mut pos)?
        } else {
            String::new()
        };
        let v_time_zone_id = if kryo::is_field_present(fl, 3) {
            table.read_string(body, &mut pos)?
        } else {
            String::new()
        };
        let v_time_zone_offset_millis = if kryo::is_field_present(fl, 4) {
            kryo::read_positive_varint_i32(body, &mut pos)?
        } else {
            0
        };
        Ok(
            DecodedEvent::Locality(
                LocalityEvent {
                    locale_language: if kryo::is_field_present(fl, 0) { Some(v_locale_language) } else { None },
                    locale_country: if kryo::is_field_present(fl, 1) { Some(v_locale_country) } else { None },
                    locale_variant: if kryo::is_field_present(fl, 2) { Some(v_locale_variant) } else { None },
                    time_zone_id: if kryo::is_field_present(fl, 3) { Some(v_time_zone_id) } else { None },
                    time_zone_offset_millis: if kryo::is_field_present(fl, 4) { Some(v_time_zone_offset_millis) } else { None },
                },
            ),
        )
    }
}

} // verus!

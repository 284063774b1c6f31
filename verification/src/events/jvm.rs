//! Wire 14: nine nullable JVM identity strings under a wide flags word.

use vstd::prelude::*;

use crate::error::ParseError;
use crate::events::{DecodedEvent, JvmEvent, SpecJvmEvent};
use crate::kryo;

verus! {

broadcast use crate::kryo::group_deep_view_eq;

pub struct JvmDecoder;

/// What decoding a wire-14 body yields.
pub open spec fn spec_decode(body: Seq<u8>) -> Result<SpecJvmEvent, ParseError> {
    match kryo::spec_read_flags_u16_be(body, 0) {
        Err(e) => Err(e),
        Ok((fl, p0)) => {
            let t0 = Seq::<Seq<char>>::empty();
            let r1: Result<(Seq<char>, int, Seq<Seq<char>>), ParseError> = if kryo::spec_field_present(fl, 0) {
                kryo::spec_read_string(body, p0, t0)
            } else {
                Ok((Seq::empty(), p0, t0))
            };
            match r1 {
                Err(e) => Err(e),
                Ok((x1, p1, t1)) => {
                    let r2: Result<(Seq<char>, int, Seq<Seq<char>>), ParseError> = if kryo::spec_field_present(fl, 1) {
                        kryo::spec_read_string(body, p1, t1)
                    } else {
                        Ok((Seq::empty(), p1, t1))
                    };
                    match r2 {
                        Err(e) => Err(e),
                        Ok((x2, p2, t2)) => {
                            let r3: Result<(Seq<char>, int, Seq<Seq<char>>), ParseError> = if kryo::spec_field_present(fl, 2) {
                                kryo::spec_read_string(body, p2, t2)
                            } else {
                                Ok((Seq::empty(), p2, t2))
                            };
                            match r3 {
                                Err(e) => Err(e),
                                Ok((x3, p3, t3)) => {
                                    let r4: Result<(Seq<char>, int, Seq<Seq<char>>), ParseError> = if kryo::spec_field_present(fl, 3) {
                                        kryo::spec_read_string(body, p3, t3)
                                    } else {
                                        Ok((Seq::empty(), p3, t3))
                                    };
                                    match r4 {
                                        Err(e) => Err(e),
                                        Ok((x4, p4, t4)) => {
                                            let r5: Result<(Seq<char>, int, Seq<Seq<char>>), ParseError> = if kryo::spec_field_present(fl, 4) {
                                                kryo::spec_read_string(body, p4, t4)
                                            } else {
                                                Ok((Seq::empty(), p4, t4))
                                            };
                                            match r5 {
                                                Err(e) => Err(e),
                                                Ok((x5, p5, t5)) => {
                                                    let r6: Result<(Seq<char>, int, Seq<Seq<char>>), ParseError> = if kryo::spec_field_present(fl, 5) {
                                                        kryo::spec_read_string(body, p5, t5)
                                                    } else {
                                                        Ok((Seq::empty(), p5, t5))
                                                    };
                                                    match r6 {
                                                        Err(e) => Err(e),
                                                        Ok((x6, p6, t6)) => {
                                                            let r7: Result<(Seq<char>, int, Seq<Seq<char>>), ParseError> = if kryo::spec_field_present(fl, 6) {
                                                                kryo::spec_read_string(body, p6, t6)
                                                            } else {
                                                                Ok((Seq::empty(), p6, t6))
                                                            };
                                                            match r7 {
                                                                Err(e) => Err(e),
                                                                Ok((x7, p7, t7)) => {
                                                                    let r8: Result<(Seq<char>, int, Seq<Seq<char>>), ParseError> = if kryo::spec_field_present(fl, 7) {
                                                                        kryo::spec_read_string(body, p7, t7)
                                                                    } else {
                                                                        Ok((Seq::empty(), p7, t7))
                                                                    };
                                                                    match r8 {
                                                                        Err(e) => Err(e),
                                                                        Ok((x8, p8, t8)) => {
                                                                            let r9: Result<(Seq<char>, int, Seq<Seq<char>>), ParseError> = if kryo::spec_field_present(fl, 8) {
                                                                                kryo::spec_read_string(body, p8, t8)
                                                                            } else {
                                                                                Ok((Seq::empty(), p8, t8))
                                                                            };
                                                                            match r9 {
                                                                                Err(e) => Err(e),
                                                                                Ok((x9, p9, t9)) => {
                                                                                    Ok(
                                                                                        SpecJvmEvent {
                                                                                            version: if kryo::spec_field_present(fl, 0) { Some(x1) } else { None },
                                                                                            vendor: if kryo::spec_field_present(fl, 1) { Some(x2) } else { None },
                                                                                            runtime_name: if kryo::spec_field_present(fl, 2) { Some(x3) } else { None },
                                                                                            runtime_version: if kryo::spec_field_present(fl, 3) { Some(x4) } else { None },
                                                                                            class_version: if kryo::spec_field_present(fl, 4) { Some(x5) } else { None },
                                                                                            vm_info: if kryo::spec_field_present(fl, 5) { Some(x6) } else { None },
                                                                                            vm_name: if kryo::spec_field_present(fl, 6) { Some(x7) } else { None },
                                                                                            vm_version: if kryo::spec_field_present(fl, 7) { Some(x8) } else { None },
                                                                                            vm_vendor: if kryo::spec_field_present(fl, 8) { Some(x9) } else { None },
                                                                                        },
                                                                                    )
                                                                                },
                                                                            }
                                                                        },
                                                                    }
                                                                },
                                                            }
                                                        },
                                                    }
                                                },
                                            }
                                        },
                                    }
                                },
                            }
                        },
                    }
                },
            }
        },
    }
}

impl JvmDecoder {
    /// Decodes a wire-14 body.
    #[verifier::rlimit(100)]
    pub fn decode(&self, body: &[u8]) -> (r: Result<DecodedEvent, ParseError>)
        ensures
            ({
                let sp = spec_decode(body@);
                match r {
                    Ok(d) => sp matches Ok(se) && d matches DecodedEvent::Jvm(e)
                        && e.deep_view() == se,
                    Err(e) => sp == Err::<SpecJvmEvent, ParseError>(e),
                }
            }),
    {
        let mut pos: usize = 0;
        let fl = kryo::read_flags_u16_be(body, &mut pos)?;
        let mut table = kryo::StringInternTable::new();
        let v_version = if kryo::is_field_present(fl, 0) {
            table.read_string(body, &mut pos)?
        } else {
            String::new()
        };
        let v_vendor = if kryo::is_field_present(fl, 1) {
            table.read_string(body, &mut pos)?
        } else {
            String::new()
        };
        let v_runtime_name = if kryo::is_field_present(fl, 2) {
            table.read_string(body, &mut pos)?
        } else {
            String::new()
        };
        let v_runtime_version = if kryo::is_field_present(fl, 3) {
            table.read_string(body, &mut pos)?
        } else {
            String::new()
        };
        let v_class_version = if kryo::is_field_present(fl, 4) {
            table.read_string(body, &mut pos)?
        } else {
            String::new()
        };
        let v_vm_info = if kryo::is_field_present(fl, 5) {
            table.read_string(body, &mut pos)?
        } else {
            String::new()
        };
        let v_vm_name = if kryo::is_field_present(fl, 6) {
            table.read_string(body, &mut pos)?
        } else {
            String::new()
        };
        let v_vm_version = if kryo::is_field_present(fl, 7) {
            table.read_string(body, &mut pos)?
        } else {
            String::new()
        };
        let v_vm_vendor = if kryo::is_field_present(fl, 8) {
            table.read_string(body, &mut pos)?
        } else {
            String::new()
        };
        Ok(
            DecodedEvent::Jvm(
                JvmEvent {
                    version: if kryo::is_field_present(fl, 0) { Some(v_version) } else { None },
                    vendor: if kryo::is_field_present(fl, 1) { Some(v_vendor) } else { None },
                    runtime_name: if kryo::is_field_present(fl, 2) { Some(v_runtime_name) } else { None },
                    runtime_version: if kryo::is_field_present(fl, 3) { Some(v_runtime_version) } else { None },
                    class_version: if kryo::is_field_present(fl, 4) { Some(v_class_version) } else { None },
                    vm_info: if kryo::is_field_present(fl, 5) { Some(v_vm_info) } else { None },
                    vm_name: if kryo::is_field_present(fl, 6) { Some(v_vm_name) } else { None },
                    vm_version: if kryo::is_field_present(fl, 7) { Some(v_vm_version) } else { None },
                    vm_vendor: if kryo::is_field_present(fl, 8) { Some(v_vm_vendor) } else { None },
                },
            ),
        )
    }
}

} // verus!

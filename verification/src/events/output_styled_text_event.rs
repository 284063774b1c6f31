//! Wire 274: styled console output: a common header sub-object that is
//! always present, a counted span list, and an optional owner reference.

use vstd::prelude::*;

use crate::error::ParseError;
use crate::events::{DecodedEvent, OutputSpan, OutputStyledTextEvent, SpecOutputSpan,
    SpecOutputStyledTextEvent};
use crate::kryo;
use crate::varint;

verus! {

broadcast use crate::kryo::group_deep_view_eq;

pub struct OutputStyledTextEventDecoder;

/// One output span: its own flags byte, a text and an optional style.
pub open spec fn spec_read_span(body: Seq<u8>, pos: int, table: Seq<Seq<char>>) -> Result<
    (SpecOutputSpan, int, Seq<Seq<char>>),
    ParseError,
> {
    match kryo::spec_read_flags_byte(body, pos) {
        Err(e) => Err(e),
        Ok((flags, p0)) => {
            let fl = flags as u16;
            let r1: Result<(Seq<char>, int, Seq<Seq<char>>), ParseError> =
                if kryo::spec_field_present(fl, 0) {
                kryo::spec_read_string(body, p0, table)
            } else {
                Ok((Seq::empty(), p0, table))
            };
            match r1 {
                Err(e) => Err(e),
                Ok((text, p1, t1)) => {
                    let r2: Result<(Seq<char>, int, Seq<Seq<char>>), ParseError> =
                        if kryo::spec_field_present(fl, 1) {
                        kryo::spec_read_string(body, p1, t1)
                    } else {
                        Ok((Seq::empty(), p1, t1))
                    };
                    match r2 {
                        Err(e) => Err(e),
                        Ok((style, p2, t2)) => Ok(
                            (
                                SpecOutputSpan {
                                    text,
                                    style: if kryo::spec_field_present(fl, 1) {
                                        Some(style)
                                    } else {
                                        None
                                    },
                                },
                                p2,
                                t2,
                            ),
                        ),
                    }
                },
            }
        },
    }
}

pub open spec fn span_step() -> spec_fn(Seq<u8>, int, Seq<Seq<char>>) -> Result<
    (SpecOutputSpan, int, Seq<Seq<char>>),
    ParseError,
> {
    |d: Seq<u8>, q: int, t: Seq<Seq<char>>| spec_read_span(d, q, t)
}

/// What decoding a wire-274 body yields.
pub open spec fn spec_decode(body: Seq<u8>) -> Result<SpecOutputStyledTextEvent, ParseError> {
    match kryo::spec_read_flags_byte(body, 0) {
        Err(e) => Err(e),
        Ok((flags, p0)) => {
            let fl = flags as u16;
            match kryo::spec_read_flags_byte(body, p0) {
                Err(e) => Err(e),
                Ok((cflags, p1)) => {
                    let cfl = cflags as u16;
                    let t0 = Seq::<Seq<char>>::empty();
                    let r1: Result<(Seq<char>, int, Seq<Seq<char>>), ParseError> =
                        if kryo::spec_field_present(cfl, 0) {
                        kryo::spec_read_string(body, p1, t0)
                    } else {
                        Ok((Seq::empty(), p1, t0))
                    };
                    match r1 {
                        Err(e) => Err(e),
                        Ok((category, p2, t2)) => {
                            let r2: Result<(Seq<char>, int, Seq<Seq<char>>), ParseError> =
                                if kryo::spec_field_present(cfl, 1) {
                                kryo::spec_read_string(body, p2, t2)
                            } else {
                                Ok((Seq::empty(), p2, t2))
                            };
                            match r2 {
                                Err(e) => Err(e),
                                Ok((log_level, p3, t3)) => {
                                    let r3: Result<
                                        (Seq<SpecOutputSpan>, int, Seq<Seq<char>>),
                                        ParseError,
                                    > = if kryo::spec_field_present(fl, 0) {
                                        match varint::spec_varint(body, p3) {
                                            Err(e) => Err(e),
                                            Ok((n, p4)) => kryo::spec_read_count_with_table(
                                                body,
                                                p4,
                                                (n as usize) as nat,
                                                t3,
                                                span_step(),
                                            ),
                                        }
                                    } else {
                                        Ok((Seq::empty(), p3, t3))
                                    };
                                    match r3 {
                                        Err(e) => Err(e),
                                        Ok((spans, p5, t5)) => {
                                            let r4: Result<
                                                (Option<u64>, Option<Seq<char>>, int),
                                                ParseError,
                                            > = if kryo::spec_field_present(fl, 1) {
                                                match kryo::spec_read_enum_ordinal(body, p5) {
                                                    Err(e) => Err(e),
                                                    Ok((ot, p6)) => match kryo::spec_read_string(
                                                        body,
                                                        p6,
                                                        t5,
                                                    ) {
                                                        Err(e) => Err(e),
                                                        Ok((oid, p7, _t7)) => Ok(
                                                            (Some(ot), Some(oid), p7),
                                                        ),
                                                    },
                                                }
                                            } else {
                                                Ok((None, None, p5))
                                            };
                                            match r4 {
                                                Err(e) => Err(e),
                                                Ok((owner_type, owner_id, _p8)) => Ok(
                                                    SpecOutputStyledTextEvent {
                                                        category: if kryo::spec_field_present(
                                                            cfl,
                                                            0,
                                                        ) {
                                                            Some(category)
                                                        } else {
                                                            None
                                                        },
                                                        log_level: if kryo::spec_field_present(
                                                            cfl,
                                                            1,
                                                        ) {
                                                            Some(log_level)
                                                        } else {
                                                            None
                                                        },
                                                        spans,
                                                        owner_type,
                                                        owner_id,
                                                    },
                                                ),
                                            }
                                        },
                                    }
                                },
                            }
                        },
                    }
                },
            }
        },
    }
}

impl OutputStyledTextEventDecoder {
    /// Decodes a wire-274 body.
    #[verifier::loop_isolation(false)]
    pub fn decode(&self, body: &[u8]) -> (r: Result<DecodedEvent, ParseError>)
        ensures
            ({
                let sp = spec_decode(body@);
                match r {
                    Ok(d) => sp matches Ok(se) && d matches DecodedEvent::OutputStyledText(e)
                        && e.deep_view() == se,
                    Err(e) => sp == Err::<SpecOutputStyledTextEvent, ParseError>(e),
                }
            }),
    {
        let mut pos: usize = 0;
        let mut table = kryo::StringInternTable::new();
        let flags = kryo::read_flags_byte(body, &mut pos)?;
        let fl = flags as u16;
        let common_flags = kryo::read_flags_byte(body, &mut pos)?;
        let cfl = common_flags as u16;
        let v_category = if kryo::is_field_present(cfl, 0) {
            table.read_string(body, &mut pos)?
        } else {
            String::new()
        };
        let v_log_level = if kryo::is_field_present(cfl, 1) {
            table.read_string(body, &mut pos)?
        } else {
            String::new()
        };
        let mut spans: Vec<OutputSpan> = Vec::new();
        proof {
            assert(spans.deep_view() =~= Seq::<SpecOutputSpan>::empty());
        }
        if kryo::is_field_present(fl, 0) {
            let n = varint::read_unsigned_varint(body, &mut pos)?;
            let count = #[verifier::truncate] (n as usize);
            let ghost base = pos as int;
            let ghost table0 = table@;
            let mut i: usize = 0;
            while i < count
                invariant
                    i <= count,
                    pos <= body@.len(),
                    kryo::spec_read_count_with_table(body@, base, i as nat, table0, span_step())
                        == Ok::<(Seq<SpecOutputSpan>, int, Seq<Seq<char>>), ParseError>(
                        (spans.deep_view(), pos as int, table@),
                    ),
                decreases count - i,
            {
                let ghost prev_pos = pos as int;
                let ghost prev_table = table@;
                let span_flags = match kryo::read_flags_byte(body, &mut pos) {
                    Ok(v) => v,
                    Err(e) => {
                        proof {
                            assert(span_step()(body@, prev_pos, prev_table) == Err::<
                                (SpecOutputSpan, int, Seq<Seq<char>>),
                                ParseError,
                            >(e));
                            kryo::lemma_read_count_with_table_err(
                                body@,
                                base,
                                (i + 1) as nat,
                                count as nat,
                                table0,
                                span_step(),
                            );
                        }
                        return Err(e);
                    },
                };
                let sfl = span_flags as u16;
                let v_text = if kryo::is_field_present(sfl, 0) {
                    match table.read_string(body, &mut pos) {
                        Ok(v) => v,
                        Err(e) => {
                            proof {
                                assert(span_step()(body@, prev_pos, prev_table) == Err::<
                                    (SpecOutputSpan, int, Seq<Seq<char>>),
                                    ParseError,
                                >(e));
                                kryo::lemma_read_count_with_table_err(
                                    body@,
                                    base,
                                    (i + 1) as nat,
                                    count as nat,
                                    table0,
                                    span_step(),
                                );
                            }
                            return Err(e);
                        },
                    }
                } else {
                    String::new()
                };
                let v_style = if kryo::is_field_present(sfl, 1) {
                    match table.read_string(body, &mut pos) {
                        Ok(v) => v,
                        Err(e) => {
                            proof {
                                assert(span_step()(body@, prev_pos, prev_table) == Err::<
                                    (SpecOutputSpan, int, Seq<Seq<char>>),
                                    ParseError,
                                >(e));
                                kryo::lemma_read_count_with_table_err(
                                    body@,
                                    base,
                                    (i + 1) as nat,
                                    count as nat,
                                    table0,
                                    span_step(),
                                );
                            }
                            return Err(e);
                        },
                    }
                } else {
                    String::new()
                };
                let span = OutputSpan {
                    text: v_text,
                    style: if kryo::is_field_present(sfl, 1) {
                        Some(v_style)
                    } else {
                        None
                    },
                };
                let ghost prev = spans.deep_view();
                let ghost item = span.deep_view();
                proof {
                    assert(span_step()(body@, prev_pos, prev_table) == Ok::<
                        (SpecOutputSpan, int, Seq<Seq<char>>),
                        ParseError,
                    >((item, pos as int, table@)));
                }
                spans.push(span);
                proof {
                    assert(spans.deep_view() =~= prev.push(item));
                }
                i += 1;
            }
        }
        let (owner_type, owner_id) = if kryo::is_field_present(fl, 1) {
            let ot = kryo::read_enum_ordinal(body, &mut pos)?;
            let oid = table.read_string(body, &mut pos)?;
            (Some(ot), Some(oid))
        } else {
            (None, None)
        };
        Ok(
            DecodedEvent::OutputStyledText(
                OutputStyledTextEvent {
                    category: if kryo::is_field_present(cfl, 0) {
                        Some(v_category)
                    } else {
                        None
                    },
                    log_level: if kryo::is_field_present(cfl, 1) {
                        Some(v_log_level)
                    } else {
                        None
                    },
                    spans,
                    owner_type,
                    owner_id,
                },
            ),
        )
    }
}

} // verus!

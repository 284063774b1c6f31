//! Wire 2074: task finish: outcome, cache behaviour and provenance; two
//! booleans ride on flag bits, and a wide fixed big-endian flags word
//! governs thirteen fields.

use vstd::prelude::*;

use crate::error::ParseError;
use crate::events::{DecodedEvent, SpecTaskFinishedEvent, TaskFinishedEvent};
use crate::kryo;

verus! {

broadcast use crate::kryo::group_deep_view_eq;

pub struct TaskFinishedDecoder;

/// The leading fields: id, path, outcome ordinal, and the skip message
/// (read for sync, not kept).
pub open spec fn spec_fields_head(body: Seq<u8>, fl: u16, pos: int, table: Seq<Seq<char>>)
    -> Result<((i64, Seq<char>, u64), int, Seq<Seq<char>>), ParseError> {
    let r1: Result<(i64, int), ParseError> = if kryo::spec_field_present(fl, 0) {
        kryo::spec_read_task_id(body, pos)
    } else {
        Ok((0, pos))
    };
    match r1 {
        Err(e) => Err(e),
        Ok((id, p1)) => {
            let r2: Result<(Seq<char>, int, Seq<Seq<char>>), ParseError> =
                if kryo::spec_field_present(fl, 1) {
                kryo::spec_read_string(body, p1, table)
            } else {
                Ok((Seq::empty(), p1, table))
            };
            match r2 {
                Err(e) => Err(e),
                Ok((path, p2, t2)) => {
                    let r3: Result<(u64, int), ParseError> = if kryo::spec_field_present(fl, 2) {
                        kryo::spec_read_enum_ordinal(body, p2)
                    } else {
                        Ok((0, p2))
                    };
                    match r3 {
                        Err(e) => Err(e),
                        Ok((outcome, p3)) => {
                            let r4: Result<(Seq<char>, int, Seq<Seq<char>>), ParseError> =
                                if kryo::spec_field_present(fl, 3) {
                                kryo::spec_read_string(body, p3, t2)
                            } else {
                                Ok((Seq::empty(), p3, t2))
                            };
                            match r4 {
                                Err(e) => Err(e),
                                Ok((_skip_message, p4, t4)) => Ok(((id, path, outcome), p4, t4)),
                            }
                        },
                    }
                },
            }
        },
    }
}

/// The caching fields: reason category, explanation, origin invocation id
/// and origin cache key.
pub open spec fn spec_fields_caching(body: Seq<u8>, fl: u16, pos: int, table: Seq<Seq<char>>)
    -> Result<((Seq<char>, Seq<char>, Seq<char>, Seq<u8>), int, Seq<Seq<char>>), ParseError> {
    let r1: Result<(Seq<char>, int, Seq<Seq<char>>), ParseError> = if kryo::spec_field_present(
        fl,
        5,
    ) {
        kryo::spec_read_string(body, pos, table)
    } else {
        Ok((Seq::empty(), pos, table))
    };
    match r1 {
        Err(e) => Err(e),
        Ok((category, p1, t1)) => {
            let r2: Result<(Seq<char>, int, Seq<Seq<char>>), ParseError> =
                if kryo::spec_field_present(fl, 6) {
                kryo::spec_read_string(body, p1, t1)
            } else {
                Ok((Seq::empty(), p1, t1))
            };
            match r2 {
                Err(e) => Err(e),
                Ok((explanation, p2, t2)) => {
                    let r3: Result<(Seq<char>, int, Seq<Seq<char>>), ParseError> =
                        if kryo::spec_field_present(fl, 7) {
                        kryo::spec_read_string(body, p2, t2)
                    } else {
                        Ok((Seq::empty(), p2, t2))
                    };
                    match r3 {
                        Err(e) => Err(e),
                        Ok((invocation_id, p3, t3)) => {
                            let r4: Result<(Seq<u8>, int), ParseError> =
                                if kryo::spec_field_present(fl, 8) {
                                kryo::spec_read_byte_array(body, p3)
                            } else {
                                Ok((Seq::empty(), p3))
                            };
                            match r4 {
                                Err(e) => Err(e),
                                Ok((cache_key, p4)) => Ok(
                                    ((category, explanation, invocation_id, cache_key), p4, t3),
                                ),
                            }
                        },
                    }
                },
            }
        },
    }
}

/// The trailing fields: the discarded origin execution time, the discarded
/// up-to-date message list, and the skip reason message.
pub open spec fn spec_fields_tail(body: Seq<u8>, fl: u16, pos: int, table: Seq<Seq<char>>)
    -> Result<(Seq<char>, int, Seq<Seq<char>>), ParseError> {
    let r1: Result<(int), ParseError> = if kryo::spec_field_present(fl, 9) {
        match kryo::spec_read_zigzag_i64(body, pos) {
            Ok((_v, p)) => Ok(p),
            Err(e) => Err(e),
        }
    } else {
        Ok(pos)
    };
    match r1 {
        Err(e) => Err(e),
        Ok(p1) => {
            let r2: Result<(int, Seq<Seq<char>>), ParseError> = if kryo::spec_field_present(
                fl,
                11,
            ) {
                match kryo::spec_read_list_of_interned_strings(body, p1, table) {
                    Ok((_items, p, t)) => Ok((p, t)),
                    Err(e) => Err(e),
                }
            } else {
                Ok((p1, table))
            };
            match r2 {
                Err(e) => Err(e),
                Ok((p2, t2)) => {
                    let r3: Result<(Seq<char>, int, Seq<Seq<char>>), ParseError> =
                        if kryo::spec_field_present(fl, 12) {
                        kryo::spec_read_string(body, p2, t2)
                    } else {
                        Ok((Seq::empty(), p2, t2))
                    };
                    match r3 {
                        Err(e) => Err(e),
                        Ok((skip_reason, p3, t3)) => Ok((skip_reason, p3, t3)),
                    }
                },
            }
        },
    }
}

/// What decoding a wire-2074 body yields.
pub open spec fn spec_decode(body: Seq<u8>) -> Result<SpecTaskFinishedEvent, ParseError> {
    match kryo::spec_read_flags_u16_be(body, 0) {
        Err(e) => Err(e),
        Ok((fl, p0)) => {
            match spec_fields_head(body, fl, p0, Seq::empty()) {
                Err(e) => Err(e),
                Ok(((id, path, outcome), p4, t4)) => {
                    match spec_fields_caching(body, fl, p4, t4) {
                        Err(e) => Err(e),
                        Ok(((category, explanation, invocation_id, cache_key), p8, t8)) => {
                            match spec_fields_tail(body, fl, p8, t8) {
                                Err(e) => Err(e),
                                Ok((skip_reason, _p, _t)) => Ok(
                                    SpecTaskFinishedEvent {
                                        id,
                                        path,
                                        outcome: if kryo::spec_field_present(fl, 2) {
                                            Some(outcome)
                                        } else {
                                            None
                                        },
                                        cacheable: Some(kryo::spec_field_present(fl, 4)),
                                        caching_disabled_reason_category:
                                            if kryo::spec_field_present(fl, 5) {
                                            Some(category)
                                        } else {
                                            None
                                        },
                                        caching_disabled_explanation: if kryo::spec_field_present(
                                            fl,
                                            6,
                                        ) {
                                            Some(explanation)
                                        } else {
                                            None
                                        },
                                        origin_build_invocation_id: if kryo::spec_field_present(
                                            fl,
                                            7,
                                        ) {
                                            Some(invocation_id)
                                        } else {
                                            None
                                        },
                                        origin_build_cache_key: if kryo::spec_field_present(
                                            fl,
                                            8,
                                        ) {
                                            Some(cache_key)
                                        } else {
                                            None
                                        },
                                        actionable: Some(kryo::spec_field_present(fl, 10)),
                                        skip_reason_message: if kryo::spec_field_present(fl, 12) {
                                            Some(skip_reason)
                                        } else {
                                            None
                                        },
                                    },
                                ),
                            }
                        },
                    }
                },
            }
        },
    }
}

/// Reads the leading fields.
fn decode_fields_head(
    body: &[u8],
    fl: u16,
    pos: &mut usize,
    table: &mut kryo::StringInternTable,
) -> (r: Result<(i64, String, u64), ParseError>)
    requires
        *old(pos) <= body@.len(),
    ensures
        ({
            let sp = spec_fields_head(body@, fl, *old(pos) as int, old(table)@);
            match r {
                Ok((id, path, outcome)) => sp matches Ok(((sid, spath, soutcome), p, t)) && id
                    == sid && path@ == spath && outcome == soutcome && *final(pos) == p
                    && final(table)@ == t && *final(pos) <= body@.len(),
                Err(e) => sp == Err::<((i64, Seq<char>, u64), int, Seq<Seq<char>>), ParseError>(e),
            }
        }),
{
    let id = if kryo::is_field_present(fl, 0) {
        kryo::read_task_id(body, pos)?
    } else {
        0
    };
    let path = if kryo::is_field_present(fl, 1) {
        table.read_string(body, pos)?
    } else {
        String::new()
    };
    let outcome = if kryo::is_field_present(fl, 2) {
        kryo::read_enum_ordinal(body, pos)?
    } else {
        0
    };
    if kryo::is_field_present(fl, 3) {
        let _skip_message = table.read_string(body, pos)?;
    }
    Ok((id, path, outcome))
}

/// Reads the caching fields.
fn decode_fields_caching(
    body: &[u8],
    fl: u16,
    pos: &mut usize,
    table: &mut kryo::StringInternTable,
) -> (r: Result<(String, String, String, Vec<u8>), ParseError>)
    requires
        *old(pos) <= body@.len(),
    ensures
        ({
            let sp = spec_fields_caching(body@, fl, *old(pos) as int, old(table)@);
            match r {
                Ok((category, explanation, invocation_id, cache_key)) => sp matches Ok(
                    ((scat, sexp, sinv, skey), p, t),
                ) && category@ == scat && explanation@ == sexp && invocation_id@ == sinv
                    && cache_key@ == skey && *final(pos) == p && final(table)@ == t && *final(pos)
                    <= body@.len(),
                Err(e) => sp == Err::<
                    ((Seq<char>, Seq<char>, Seq<char>, Seq<u8>), int, Seq<Seq<char>>),
                    ParseError,
                >(e),
            }
        }),
{
    let category = if kryo::is_field_present(fl, 5) {
        table.read_string(body, pos)?
    } else {
        String::new()
    };
    let explanation = if kryo::is_field_present(fl, 6) {
        table.read_string(body, pos)?
    } else {
        String::new()
    };
    let invocation_id = if kryo::is_field_present(fl, 7) {
        table.read_string(body, pos)?
    } else {
        String::new()
    };
    let cache_key = if kryo::is_field_present(fl, 8) {
        kryo::read_byte_array(body, pos)?
    } else {
        Vec::new()
    };
    Ok((category, explanation, invocation_id, cache_key))
}

/// Reads the trailing fields, discarding what the wire keeps only for sync.
fn decode_fields_tail(
    body: &[u8],
    fl: u16,
    pos: &mut usize,
    table: &mut kryo::StringInternTable,
) -> (r: Result<String, ParseError>)
    requires
        *old(pos) <= body@.len(),
    ensures
        ({
            let sp = spec_fields_tail(body@, fl, *old(pos) as int, old(table)@);
            match r {
                Ok(skip_reason) => sp matches Ok((sskip, p, t)) && skip_reason@ == sskip
                    && *final(pos) == p && final(table)@ == t && *final(pos) <= body@.len(),
                Err(e) => sp == Err::<(Seq<char>, int, Seq<Seq<char>>), ParseError>(e),
            }
        }),
{
    if kryo::is_field_present(fl, 9) {
        let _origin_execution_time = kryo::read_zigzag_i64(body, pos)?;
    }
    if kryo::is_field_present(fl, 11) {
        let _up_to_date_messages = kryo::read_list_of_interned_strings(body, pos, table)?;
    }
    let skip_reason = if kryo::is_field_present(fl, 12) {
        table.read_string(body, pos)?
    } else {
        String::new()
    };
    Ok(skip_reason)
}

impl TaskFinishedDecoder {
    /// Decodes a wire-2074 body.
    pub fn decode(&self, body: &[u8]) -> (r: Result<DecodedEvent, ParseError>)
        ensures
            ({
                let sp = spec_decode(body@);
                match r {
                    Ok(d) => sp matches Ok(se) && d matches DecodedEvent::TaskFinished(e)
                        && e.deep_view() == se,
                    Err(e) => sp == Err::<SpecTaskFinishedEvent, ParseError>(e),
                }
            }),
    {
        let mut pos: usize = 0;
        let fl = kryo::read_flags_u16_be(body, &mut pos)?;
        let mut table = kryo::StringInternTable::new();
        let (id, path, outcome) = decode_fields_head(body, fl, &mut pos, &mut table)?;
        let (category, explanation, invocation_id, cache_key) = decode_fields_caching(
            body,
            fl,
            &mut pos,
            &mut table,
        )?;
        let skip_reason = decode_fields_tail(body, fl, &mut pos, &mut table)?;
        Ok(
            DecodedEvent::TaskFinished(
                TaskFinishedEvent {
                    id,
                    path,
                    outcome: if kryo::is_field_present(fl, 2) {
                        Some(outcome)
                    } else {
                        None
                    },
                    cacheable: Some(kryo::is_field_present(fl, 4)),
                    caching_disabled_reason_category: if kryo::is_field_present(fl, 5) {
                        Some(category)
                    } else {
                        None
                    },
                    caching_disabled_explanation: if kryo::is_field_present(fl, 6) {
                        Some(explanation)
                    } else {
                        None
                    },
                    origin_build_invocation_id: if kryo::is_field_present(fl, 7) {
                        Some(invocation_id)
                    } else {
                        None
                    },
                    origin_build_cache_key: if kryo::is_field_present(fl, 8) {
                        Some(cache_key)
                    } else {
                        None
                    },
                    actionable: Some(kryo::is_field_present(fl, 10)),
                    skip_reason_message: if kryo::is_field_present(fl, 12) {
                        Some(skip_reason)
                    } else {
                        None
                    },
                },
            ),
        )
    }
}

} // verus!

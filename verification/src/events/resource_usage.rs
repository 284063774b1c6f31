//! Wire 407: resource usage, interleaving unconditional normalised-sample
//! sub-structures with conditional outer fields; the ordering is
//! load-bearing and preserved exactly.

use vstd::prelude::*;

use crate::error::ParseError;
use crate::events::{DecodedEvent, IndexedNormalizedSamplesEvent, NormalizedSamplesEvent,
    ProcessEvent, ResourceUsageEvent, SpecIndexedNormalizedSamplesEvent,
    SpecNormalizedSamplesEvent, SpecProcessEvent, SpecResourceUsageEvent};
use crate::kryo;

verus! {

broadcast use crate::kryo::group_deep_view_eq;

pub struct ResourceUsageDecoder;

/// One normalised-samples block: an optional sample array and an optional
/// maximum.
pub open spec fn spec_read_normalized(body: Seq<u8>, pos: int) -> Result<
    (SpecNormalizedSamplesEvent, int),
    ParseError,
> {
    match kryo::spec_read_flags_byte(body, pos) {
        Err(e) => Err(e),
        Ok((flags, p0)) => {
            let fl = flags as u16;
            let r1: Result<(Seq<u8>, int), ParseError> = if kryo::spec_field_present(fl, 0) {
                kryo::spec_read_byte_array(body, p0)
            } else {
                Ok((Seq::empty(), p0))
            };
            match r1 {
                Err(e) => Err(e),
                Ok((samples, p1)) => {
                    let r2: Result<(i64, int), ParseError> = if kryo::spec_field_present(fl, 1) {
                        kryo::spec_read_zigzag_i64(body, p1)
                    } else {
                        Ok((0, p1))
                    };
                    match r2 {
                        Err(e) => Err(e),
                        Ok((max, p2)) => Ok(
                            (
                                SpecNormalizedSamplesEvent {
                                    samples: if kryo::spec_field_present(fl, 0) {
                                        Some(samples)
                                    } else {
                                        None
                                    },
                                    max: if kryo::spec_field_present(fl, 1) {
                                        Some(max)
                                    } else {
                                        None
                                    },
                                },
                                p2,
                            ),
                        ),
                    }
                },
            }
        },
    }
}

/// One indexed normalised-samples block: index lists, sample arrays, and an
/// optional maximum.
pub open spec fn spec_read_indexed(body: Seq<u8>, pos: int) -> Result<
    (SpecIndexedNormalizedSamplesEvent, int),
    ParseError,
> {
    match kryo::spec_read_flags_byte(body, pos) {
        Err(e) => Err(e),
        Ok((flags, p0)) => {
            let fl = flags as u16;
            let r1: Result<(Seq<Seq<i32>>, int), ParseError> = if kryo::spec_field_present(
                fl,
                0,
            ) {
                kryo::spec_read_list_of_list_of_i32(body, p0)
            } else {
                Ok((Seq::empty(), p0))
            };
            match r1 {
                Err(e) => Err(e),
                Ok((indices, p1)) => {
                    let r2: Result<(Seq<Seq<u8>>, int), ParseError> = if kryo::spec_field_present(
                        fl,
                        1,
                    ) {
                        kryo::spec_read_list_of_byte_arrays(body, p1)
                    } else {
                        Ok((Seq::empty(), p1))
                    };
                    match r2 {
                        Err(e) => Err(e),
                        Ok((samples, p2)) => {
                            let r3: Result<(i64, int), ParseError> = if kryo::spec_field_present(
                                fl,
                                2,
                            ) {
                                kryo::spec_read_zigzag_i64(body, p2)
                            } else {
                                Ok((0, p2))
                            };
                            match r3 {
                                Err(e) => Err(e),
                                Ok((max, p3)) => Ok(
                                    (
                                        SpecIndexedNormalizedSamplesEvent {
                                            indices,
                                            samples,
                                            max: if kryo::spec_field_present(fl, 2) {
                                                Some(max)
                                            } else {
                                                None
                                            },
                                        },
                                        p3,
                                    ),
                                ),
                            }
                        },
                    }
                },
            }
        },
    }
}

/// One process entry: id, two names and a type ordinal, each optional.
pub open spec fn spec_read_process(body: Seq<u8>, pos: int, table: Seq<Seq<char>>) -> Result<
    (SpecProcessEvent, int, Seq<Seq<char>>),
    ParseError,
> {
    match kryo::spec_read_flags_byte(body, pos) {
        Err(e) => Err(e),
        Ok((flags, p0)) => {
            let fl = flags as u16;
            let r1: Result<(i64, int), ParseError> = if kryo::spec_field_present(fl, 0) {
                kryo::spec_read_zigzag_i64(body, p0)
            } else {
                Ok((0, p0))
            };
            match r1 {
                Err(e) => Err(e),
                Ok((id, p1)) => {
                    let r2: Result<(Seq<char>, int, Seq<Seq<char>>), ParseError> =
                        if kryo::spec_field_present(fl, 1) {
                        kryo::spec_read_string(body, p1, table)
                    } else {
                        Ok((Seq::empty(), p1, table))
                    };
                    match r2 {
                        Err(e) => Err(e),
                        Ok((name, p2, t2)) => {
                            let r3: Result<(Seq<char>, int, Seq<Seq<char>>), ParseError> =
                                if kryo::spec_field_present(fl, 2) {
                                kryo::spec_read_string(body, p2, t2)
                            } else {
                                Ok((Seq::empty(), p2, t2))
                            };
                            match r3 {
                                Err(e) => Err(e),
                                Ok((display_name, p3, t3)) => {
                                    let r4: Result<(u64, int), ParseError> =
                                        if kryo::spec_field_present(fl, 3) {
                                        kryo::spec_read_enum_ordinal(body, p3)
                                    } else {
                                        Ok((0, p3))
                                    };
                                    match r4 {
                                        Err(e) => Err(e),
                                        Ok((process_type, p4)) => Ok(
                                            (
                                                SpecProcessEvent {
                                                    id: if kryo::spec_field_present(fl, 0) {
                                                        Some(id)
                                                    } else {
                                                        None
                                                    },
                                                    name: if kryo::spec_field_present(fl, 1) {
                                                        Some(name)
                                                    } else {
                                                        None
                                                    },
                                                    display_name: if kryo::spec_field_present(
                                                        fl,
                                                        2,
                                                    ) {
                                                        Some(display_name)
                                                    } else {
                                                        None
                                                    },
                                                    process_type: if kryo::spec_field_present(
                                                        fl,
                                                        3,
                                                    ) {
                                                        Some(process_type)
                                                    } else {
                                                        None
                                                    },
                                                },
                                                p4,
                                                t3,
                                            ),
                                        ),
                                    }
                                },
                            }
                        },
                    }
                },
            }
        },
    }
}

pub open spec fn process_step() -> spec_fn(Seq<u8>, int, Seq<Seq<char>>) -> Result<
    (SpecProcessEvent, int, Seq<Seq<char>>),
    ParseError,
> {
    |d: Seq<u8>, q: int, t: Seq<Seq<char>>| spec_read_process(d, q, t)
}

/// The tail of the body after the process list: the two indexed blocks.
pub open spec fn spec_decode_tail(
    body: Seq<u8>,
    pos: int,
) -> Result<(SpecIndexedNormalizedSamplesEvent, SpecIndexedNormalizedSamplesEvent, int),
    ParseError> {
    match spec_read_indexed(body, pos) {
        Err(e) => Err(e),
        Ok((by_cpu, p1)) => match spec_read_indexed(body, p1) {
            Err(e) => Err(e),
            Ok((by_memory, p2)) => Ok((by_cpu, by_memory, p2)),
        },
    }
}

/// The middle of the body: the four unconditional sample groups around the
/// conditional fields, as the wire interleaves them.
pub open spec fn spec_decode_after_flags(body: Seq<u8>, fl: u16, pos: int) -> Result<
    SpecResourceUsageEvent,
    ParseError,
> {
    let r1: Result<(Seq<Seq<u8>>, int), ParseError> = if kryo::spec_field_present(fl, 0) {
        kryo::spec_read_list_of_byte_arrays(body, pos)
    } else {
        Ok((Seq::empty(), pos))
    };
    match r1 {
        Err(e) => Err(e),
        Ok((timestamps, p1)) => match spec_read_normalized(body, p1) {
            Err(e) => Err(e),
            Ok((build_process_cpu, p2)) => match spec_read_normalized(body, p2) {
                Err(e) => Err(e),
                Ok((build_child_processes_cpu, p3)) => match spec_read_normalized(body, p3) {
                    Err(e) => Err(e),
                    Ok((all_processes_cpu_sum, p4)) => {
                        let r2: Result<(Seq<u8>, int), ParseError> = if kryo::spec_field_present(
                            fl,
                            1,
                        ) {
                            kryo::spec_read_byte_array(body, p4)
                        } else {
                            Ok((Seq::empty(), p4))
                        };
                        match r2 {
                            Err(e) => Err(e),
                            Ok((all_processes_cpu, p5)) => match spec_read_normalized(body, p5) {
                                Err(e) => Err(e),
                                Ok((build_process_memory, p6)) => match spec_read_normalized(
                                    body,
                                    p6,
                                ) {
                                    Err(e) => Err(e),
                                    Ok((build_child_processes_memory, p7)) => match
                                        spec_read_normalized(body, p7) {
                                        Err(e) => Err(e),
                                        Ok((all_processes_memory, p8)) => {
                                            let r3: Result<(i64, int), ParseError> =
                                                if kryo::spec_field_present(fl, 2) {
                                                kryo::spec_read_zigzag_i64(body, p8)
                                            } else {
                                                Ok((0, p8))
                                            };
                                            match r3 {
                                                Err(e) => Err(e),
                                                Ok((total_system_memory, p9)) => match
                                                    spec_read_normalized(body, p9) {
                                                    Err(e) => Err(e),
                                                    Ok((disk_read_speed, p10)) => match
                                                        spec_read_normalized(body, p10) {
                                                        Err(e) => Err(e),
                                                        Ok((disk_write_speed, p11)) => match
                                                            spec_read_normalized(body, p11) {
                                                            Err(e) => Err(e),
                                                            Ok((network_download_speed, p12)) =>
                                                                match spec_read_normalized(
                                                                body,
                                                                p12,
                                                            ) {
                                                                Err(e) => Err(e),
                                                                Ok((network_upload_speed, p13)) => {
                                                                    let r4: Result<
                                                                        (Seq<SpecProcessEvent>,
                                                                        int),
                                                                        ParseError,
                                                                    > = if kryo::spec_field_present(
                                                                        fl,
                                                                        3,
                                                                    ) {
                                                                        match
                                                                            kryo::spec_read_positive_varint_i32(
                                                                            body,
                                                                            p13,
                                                                        ) {
                                                                            Err(e) => Err(e),
                                                                            Ok((n, p14)) => match
                                                                                kryo::spec_read_count_with_table(
                                                                                body,
                                                                                p14,
                                                                                (n as usize) as nat,
                                                                                Seq::empty(),
                                                                                process_step(),
                                                                            ) {
                                                                                Err(e) => Err(e),
                                                                                Ok(
                                                                                    (procs, p15, _t),
                                                                                ) => Ok(
                                                                                    (procs, p15),
                                                                                ),
                                                                            },
                                                                        }
                                                                    } else {
                                                                        Ok((Seq::empty(), p13))
                                                                    };
                                                                    match r4 {
                                                                        Err(e) => Err(e),
                                                                        Ok((processes, p15)) =>
                                                                            match spec_decode_tail(
                                                                            body,
                                                                            p15,
                                                                        ) {
                                                                            Err(e) => Err(e),
                                                                            Ok(
                                                                                (by_cpu, by_mem, _p),
                                                                            ) => Ok(
                                                                                SpecResourceUsageEvent {
                                                                                    timestamps,
                                                                                    build_process_cpu,
                                                                                    build_child_processes_cpu,
                                                                                    all_processes_cpu_sum,
                                                                                    all_processes_cpu:
                                                                                        if kryo::spec_field_present(
                                                                                        fl,
                                                                                        1,
                                                                                    ) {
                                                                                        Some(
                                                                                            all_processes_cpu,
                                                                                        )
                                                                                    } else {
                                                                                        None
                                                                                    },
                                                                                    build_process_memory,
                                                                                    build_child_processes_memory,
                                                                                    all_processes_memory,
                                                                                    total_system_memory:
                                                                                        if kryo::spec_field_present(
                                                                                        fl,
                                                                                        2,
                                                                                    ) {
                                                                                        Some(
                                                                                            total_system_memory,
                                                                                        )
                                                                                    } else {
                                                                                        None
                                                                                    },
                                                                                    disk_read_speed,
                                                                                    disk_write_speed,
                                                                                    network_download_speed,
                                                                                    network_upload_speed,
                                                                                    processes,
                                                                                    top_processes_by_cpu:
                                                                                        by_cpu,
                                                                                    top_processes_by_memory:
                                                                                        by_mem,
                                                                                },
                                                                            ),
                                                                        },
                                                                    }
                                                                },
                                                            },
                                                        },
                                                    },
                                                },
                                            }
                                        },
                                    },
                                },
                            },
                        }
                    },
                },
            },
        },
    }
}

/// What decoding a wire-407 body yields.
pub open spec fn spec_decode(body: Seq<u8>) -> Result<SpecResourceUsageEvent, ParseError> {
    match kryo::spec_read_flags_byte(body, 0) {
        Err(e) => Err(e),
        Ok((flags, p0)) => spec_decode_after_flags(body, flags as u16, p0),
    }
}

/// Reads one normalised-samples block.
pub fn decode_normalized_samples(body: &[u8], pos: &mut usize) -> (r: Result<
    NormalizedSamplesEvent,
    ParseError,
>)
    ensures
        ({
            let sp = spec_read_normalized(body@, *old(pos) as int);
            match r {
                Ok(v) => sp matches Ok((se, p)) && v.deep_view() == se && *final(pos) == p
                    && *final(pos) <= body@.len(),
                Err(e) => sp == Err::<(SpecNormalizedSamplesEvent, int), ParseError>(e),
            }
        }),
{
    let flags = kryo::read_flags_byte(body, pos)?;
    let fl = flags as u16;
    let v_samples = if kryo::is_field_present(fl, 0) {
        kryo::read_byte_array(body, pos)?
    } else {
        Vec::new()
    };
    let v_max = if kryo::is_field_present(fl, 1) {
        kryo::read_zigzag_i64(body, pos)?
    } else {
        0
    };
    Ok(
        NormalizedSamplesEvent {
            samples: if kryo::is_field_present(fl, 0) {
                Some(v_samples)
            } else {
                None
            },
            max: if kryo::is_field_present(fl, 1) {
                Some(v_max)
            } else {
                None
            },
        },
    )
}

/// Reads one indexed normalised-samples block.
pub fn decode_indexed_normalized_samples(body: &[u8], pos: &mut usize) -> (r: Result<
    IndexedNormalizedSamplesEvent,
    ParseError,
>)
    ensures
        ({
            let sp = spec_read_indexed(body@, *old(pos) as int);
            match r {
                Ok(v) => sp matches Ok((se, p)) && v.deep_view() == se && *final(pos) == p
                    && *final(pos) <= body@.len(),
                Err(e) => sp == Err::<(SpecIndexedNormalizedSamplesEvent, int), ParseError>(e),
            }
        }),
{
    let flags = kryo::read_flags_byte(body, pos)?;
    let fl = flags as u16;
    let v_indices = if kryo::is_field_present(fl, 0) {
        kryo::read_list_of_list_of_i32(body, pos)?
    } else {
        Vec::new()
    };
    let v_samples = if kryo::is_field_present(fl, 1) {
        kryo::read_list_of_byte_arrays(body, pos)?
    } else {
        Vec::new()
    };
    let v_max = if kryo::is_field_present(fl, 2) {
        kryo::read_zigzag_i64(body, pos)?
    } else {
        0
    };
    proof {
        if !kryo::spec_field_present(fl, 0) {
            assert(v_indices.deep_view() =~= Seq::<Seq<i32>>::empty());
        }
        if !kryo::spec_field_present(fl, 1) {
            assert(v_samples.deep_view() =~= Seq::<Seq<u8>>::empty());
        }
    }
    Ok(
        IndexedNormalizedSamplesEvent {
            indices: v_indices,
            samples: v_samples,
            max: if kryo::is_field_present(fl, 2) {
                Some(v_max)
            } else {
                None
            },
        },
    )
}

/// Reads one process entry.
pub fn decode_process(body: &[u8], pos: &mut usize, table: &mut kryo::StringInternTable) -> (r: Result<
    ProcessEvent,
    ParseError,
>)
    ensures
        ({
            let sp = spec_read_process(body@, *old(pos) as int, old(table)@);
            match r {
                Ok(v) => sp matches Ok((se, p, t)) && v.deep_view() == se && *final(pos) == p
                    && final(table)@ == t && *final(pos) <= body@.len(),
                Err(e) => sp == Err::<(SpecProcessEvent, int, Seq<Seq<char>>), ParseError>(e),
            }
        }),
{
    let flags = kryo::read_flags_byte(body, pos)?;
    let fl = flags as u16;
    let v_id = if kryo::is_field_present(fl, 0) {
        kryo::read_zigzag_i64(body, pos)?
    } else {
        0
    };
    let v_name = if kryo::is_field_present(fl, 1) {
        table.read_string(body, pos)?
    } else {
        String::new()
    };
    let v_display_name = if kryo::is_field_present(fl, 2) {
        table.read_string(body, pos)?
    } else {
        String::new()
    };
    let v_process_type = if kryo::is_field_present(fl, 3) {
        kryo::read_enum_ordinal(body, pos)?
    } else {
        0
    };
    Ok(
        ProcessEvent {
            id: if kryo::is_field_present(fl, 0) {
                Some(v_id)
            } else {
                None
            },
            name: if kryo::is_field_present(fl, 1) {
                Some(v_name)
            } else {
                None
            },
            display_name: if kryo::is_field_present(fl, 2) {
                Some(v_display_name)
            } else {
                None
            },
            process_type: if kryo::is_field_present(fl, 3) {
                Some(v_process_type)
            } else {
                None
            },
        },
    )
}

impl ResourceUsageDecoder {
    /// Decodes a wire-407 body.
    #[verifier::rlimit(100)]
    #[verifier::loop_isolation(false)]
    pub fn decode(&self, body: &[u8]) -> (r: Result<DecodedEvent, ParseError>)
        ensures
            ({
                let sp = spec_decode(body@);
                match r {
                    Ok(d) => sp matches Ok(se) && d matches DecodedEvent::ResourceUsage(e)
                        && e.deep_view() == se,
                    Err(e) => sp == Err::<SpecResourceUsageEvent, ParseError>(e),
                }
            }),
    {
        let mut pos: usize = 0;
        let flags = kryo::read_flags_byte(body, &mut pos)?;
        let fl = flags as u16;
        let mut table = kryo::StringInternTable::new();
        let v_timestamps = if kryo::is_field_present(fl, 0) {
            kryo::read_list_of_byte_arrays(body, &mut pos)?
        } else {
            Vec::new()
        };
        proof {
            if !kryo::spec_field_present(fl, 0) {
                assert(v_timestamps.deep_view() =~= Seq::<Seq<u8>>::empty());
            }
        }
        let build_process_cpu = decode_normalized_samples(body, &mut pos)?;
        let build_child_processes_cpu = decode_normalized_samples(body, &mut pos)?;
        let all_processes_cpu_sum = decode_normalized_samples(body, &mut pos)?;
        let v_all_processes_cpu = if kryo::is_field_present(fl, 1) {
            kryo::read_byte_array(body, &mut pos)?
        } else {
            Vec::new()
        };
        let build_process_memory = decode_normalized_samples(body, &mut pos)?;
        let build_child_processes_memory = decode_normalized_samples(body, &mut pos)?;
        let all_processes_memory = decode_normalized_samples(body, &mut pos)?;
        let v_total_system_memory = if kryo::is_field_present(fl, 2) {
            kryo::read_zigzag_i64(body, &mut pos)?
        } else {
            0
        };
        let disk_read_speed = decode_normalized_samples(body, &mut pos)?;
        let disk_write_speed = decode_normalized_samples(body, &mut pos)?;
        let network_download_speed = decode_normalized_samples(body, &mut pos)?;
        let network_upload_speed = decode_normalized_samples(body, &mut pos)?;
        let mut processes: Vec<ProcessEvent> = Vec::new();
        proof {
            assert(processes.deep_view() =~= Seq::<SpecProcessEvent>::empty());
        }
        if kryo::is_field_present(fl, 3) {
            let n = kryo::read_positive_varint_i32(body, &mut pos)?;
            let count = #[verifier::truncate] (n as usize);
            let ghost base = pos as int;
            let ghost table0 = table@;
            let mut i: usize = 0;
            while i < count
                invariant
                    i <= count,
                    pos <= body@.len(),
                    kryo::spec_read_count_with_table(
                        body@,
                        base,
                        i as nat,
                        table0,
                        process_step(),
                    ) == Ok::<(Seq<SpecProcessEvent>, int, Seq<Seq<char>>), ParseError>(
                        (processes.deep_view(), pos as int, table@),
                    ),
                decreases count - i,
            {
                let ghost prev_pos = pos as int;
                let ghost prev_table = table@;
                match decode_process(body, &mut pos, &mut table) {
                    Ok(p) => {
                        let ghost prev = processes.deep_view();
                        let ghost item = p.deep_view();
                        proof {
                            assert(process_step()(body@, prev_pos, prev_table) == Ok::<
                                (SpecProcessEvent, int, Seq<Seq<char>>),
                                ParseError,
                            >((item, pos as int, table@)));
                        }
                        processes.push(p);
                        proof {
                            assert(processes.deep_view() =~= prev.push(item));
                        }
                    },
                    Err(e) => {
                        proof {
                            assert(process_step()(body@, prev_pos, prev_table) == Err::<
                                (SpecProcessEvent, int, Seq<Seq<char>>),
                                ParseError,
                            >(e));
                            kryo::lemma_read_count_with_table_err(
                                body@,
                                base,
                                (i + 1) as nat,
                                count as nat,
                                table0,
                                process_step(),
                            );
                        }
                        return Err(e);
                    },
                }
                i += 1;
            }
        }
        let top_processes_by_cpu = decode_indexed_normalized_samples(body, &mut pos)?;
        let top_processes_by_memory = decode_indexed_normalized_samples(body, &mut pos)?;
        Ok(
            DecodedEvent::ResourceUsage(
                ResourceUsageEvent {
                    timestamps: v_timestamps,
                    build_process_cpu,
                    build_child_processes_cpu,
                    all_processes_cpu_sum,
                    all_processes_cpu: if kryo::is_field_present(fl, 1) {
                        Some(v_all_processes_cpu)
                    } else {
                        None
                    },
                    build_process_memory,
                    build_child_processes_memory,
                    all_processes_memory,
                    total_system_memory: if kryo::is_field_present(fl, 2) {
                        Some(v_total_system_memory)
                    } else {
                        None
                    },
                    disk_read_speed,
                    disk_write_speed,
                    network_download_speed,
                    network_upload_speed,
                    processes,
                    top_processes_by_cpu,
                    top_processes_by_memory,
                },
            ),
        )
    }
}

} // verus!

//! Wire 257: basic memory statistics, with an inner list of memory-pool
//! snapshots whose heap boolean rides on a flag bit.

use vstd::prelude::*;

use crate::error::ParseError;
use crate::events::{BasicMemoryStatsEvent, DecodedEvent, MemoryPoolSnapshotEvent,
    SpecBasicMemoryStatsEvent, SpecMemoryPoolSnapshotEvent};
use crate::kryo;

verus! {

broadcast use crate::kryo::group_deep_view_eq;

pub struct BasicMemoryStatsDecoder;

/// One memory-pool snapshot: name, the heap flag bit, and four sizes.
pub open spec fn spec_read_snapshot(body: Seq<u8>, pos: int, table: Seq<Seq<char>>) -> Result<
    (SpecMemoryPoolSnapshotEvent, int, Seq<Seq<char>>),
    ParseError,
> {
    match kryo::spec_read_flags_byte(body, pos) {
        Err(e) => Err(e),
        Ok((flags, p0)) => {
            let fl = flags as u16;
            let r1: Result<(Seq<char>, int, Seq<Seq<char>>), ParseError> =
                if kryo::spec_field_present(fl, 0) {
                kryo::spec_read_string(body, p0, table)
            } else {
                Ok((Seq::empty(), p0, table))
            };
            match r1 {
                Err(e) => Err(e),
                Ok((name, p1, t1)) => {
                    let r2: Result<(i64, int), ParseError> = if kryo::spec_field_present(fl, 2) {
                        kryo::spec_read_zigzag_i64(body, p1)
                    } else {
                        Ok((0, p1))
                    };
                    match r2 {
                        Err(e) => Err(e),
                        Ok((init, p2)) => {
                            let r3: Result<(i64, int), ParseError> = if kryo::spec_field_present(
                                fl,
                                3,
                            ) {
                                kryo::spec_read_zigzag_i64(body, p2)
                            } else {
                                Ok((0, p2))
                            };
                            match r3 {
                                Err(e) => Err(e),
                                Ok((used, p3)) => {
                                    let r4: Result<(i64, int), ParseError> =
                                        if kryo::spec_field_present(fl, 4) {
                                        kryo::spec_read_zigzag_i64(body, p3)
                                    } else {
                                        Ok((0, p3))
                                    };
                                    match r4 {
                                        Err(e) => Err(e),
                                        Ok((committed, p4)) => {
                                            let r5: Result<(i64, int), ParseError> =
                                                if kryo::spec_field_present(fl, 5) {
                                                kryo::spec_read_zigzag_i64(body, p4)
                                            } else {
                                                Ok((0, p4))
                                            };
                                            match r5 {
                                                Err(e) => Err(e),
                                                Ok((max, p5)) => Ok(
                                                    (
                                                        SpecMemoryPoolSnapshotEvent {
                                                            name: if kryo::spec_field_present(
                                                                fl,
                                                                0,
                                                            ) {
                                                                Some(name)
                                                            } else {
                                                                None
                                                            },
                                                            heap: kryo::spec_field_present(fl, 1),
                                                            init: if kryo::spec_field_present(
                                                                fl,
                                                                2,
                                                            ) {
                                                                Some(init)
                                                            } else {
                                                                None
                                                            },
                                                            used: if kryo::spec_field_present(
                                                                fl,
                                                                3,
                                                            ) {
                                                                Some(used)
                                                            } else {
                                                                None
                                                            },
                                                            committed: if kryo::spec_field_present(
                                                                fl,
                                                                4,
                                                            ) {
                                                                Some(committed)
                                                            } else {
                                                                None
                                                            },
                                                            max: if kryo::spec_field_present(
                                                                fl,
                                                                5,
                                                            ) {
                                                                Some(max)
                                                            } else {
                                                                None
                                                            },
                                                        },
                                                        p5,
                                                        t1,
                                                    ),
                                                ),
                                            }
                                        },
                                    }
                                },
                            }
                        },
                    }
                },
            }
        },
    }
}

pub open spec fn snapshot_step() -> spec_fn(Seq<u8>, int, Seq<Seq<char>>) -> Result<
    (SpecMemoryPoolSnapshotEvent, int, Seq<Seq<char>>),
    ParseError,
> {
    |d: Seq<u8>, q: int, t: Seq<Seq<char>>| spec_read_snapshot(d, q, t)
}

/// What decoding a wire-257 body yields.
pub open spec fn spec_decode(body: Seq<u8>) -> Result<SpecBasicMemoryStatsEvent, ParseError> {
    match kryo::spec_read_flags_byte(body, 0) {
        Err(e) => Err(e),
        Ok((flags, p0)) => {
            let fl = flags as u16;
            let r1: Result<(i64, int), ParseError> = if kryo::spec_field_present(fl, 0) {
                kryo::spec_read_zigzag_i64(body, p0)
            } else {
                Ok((0, p0))
            };
            match r1 {
                Err(e) => Err(e),
                Ok((free, p1)) => {
                    let r2: Result<(i64, int), ParseError> = if kryo::spec_field_present(fl, 1) {
                        kryo::spec_read_zigzag_i64(body, p1)
                    } else {
                        Ok((0, p1))
                    };
                    match r2 {
                        Err(e) => Err(e),
                        Ok((total, p2)) => {
                            let r3: Result<(i64, int), ParseError> = if kryo::spec_field_present(
                                fl,
                                2,
                            ) {
                                kryo::spec_read_zigzag_i64(body, p2)
                            } else {
                                Ok((0, p2))
                            };
                            match r3 {
                                Err(e) => Err(e),
                                Ok((max, p3)) => {
                                    let r4: Result<
                                        (Seq<SpecMemoryPoolSnapshotEvent>, int),
                                        ParseError,
                                    > = if kryo::spec_field_present(fl, 3) {
                                        match kryo::spec_read_positive_varint_i32(body, p3) {
                                            Err(e) => Err(e),
                                            Ok((n, p4)) => match kryo::spec_read_count_with_table(
                                                body,
                                                p4,
                                                (n as usize) as nat,
                                                Seq::empty(),
                                                snapshot_step(),
                                            ) {
                                                Err(e) => Err(e),
                                                Ok((items, p5, _t5)) => Ok((items, p5)),
                                            },
                                        }
                                    } else {
                                        Ok((Seq::empty(), p3))
                                    };
                                    match r4 {
                                        Err(e) => Err(e),
                                        Ok((snapshots, p5)) => {
                                            let r5: Result<(i64, int), ParseError> =
                                                if kryo::spec_field_present(fl, 4) {
                                                kryo::spec_read_zigzag_i64(body, p5)
                                            } else {
                                                Ok((0, p5))
                                            };
                                            match r5 {
                                                Err(e) => Err(e),
                                                Ok((gc_time, _p6)) => Ok(
                                                    SpecBasicMemoryStatsEvent {
                                                        free: if kryo::spec_field_present(fl, 0) {
                                                            Some(free)
                                                        } else {
                                                            None
                                                        },
                                                        total: if kryo::spec_field_present(
                                                            fl,
                                                            1,
                                                        ) {
                                                            Some(total)
                                                        } else {
                                                            None
                                                        },
                                                        max: if kryo::spec_field_present(fl, 2) {
                                                            Some(max)
                                                        } else {
                                                            None
                                                        },
                                                        peak_snapshots: snapshots,
                                                        gc_time: if kryo::spec_field_present(
                                                            fl,
                                                            4,
                                                        ) {
                                                            Some(gc_time)
                                                        } else {
                                                            None
                                                        },
                                                    },
                                                ),
                                            }
                                        },
                                    }
                                },
                            }
                        },
                    }
                },
            }
        },
    }
}

/// Reads one memory-pool snapshot.
fn decode_memory_pool_snapshot(
    body: &[u8],
    pos: &mut usize,
    table: &mut kryo::StringInternTable,
) -> (r: Result<MemoryPoolSnapshotEvent, ParseError>)
    ensures
        ({
            let sp = spec_read_snapshot(body@, *old(pos) as int, old(table)@);
            match r {
                Ok(v) => sp matches Ok((se, p, t)) && v.deep_view() == se && *final(pos) == p
                    && final(table)@ == t && *final(pos) <= body@.len(),
                Err(e) => sp == Err::<(SpecMemoryPoolSnapshotEvent, int, Seq<Seq<char>>),
                    ParseError>(e),
            }
        }),
{
    let flags = kryo::read_flags_byte(body, pos)?;
    let fl = flags as u16;
    let v_name = if kryo::is_field_present(fl, 0) {
        table.read_string(body, pos)?
    } else {
        String::new()
    };
    let heap = kryo::is_field_present(fl, 1);
    let v_init = if kryo::is_field_present(fl, 2) {
        kryo::read_zigzag_i64(body, pos)?
    } else {
        0
    };
    let v_used = if kryo::is_field_present(fl, 3) {
        kryo::read_zigzag_i64(body, pos)?
    } else {
        0
    };
    let v_committed = if kryo::is_field_present(fl, 4) {
        kryo::read_zigzag_i64(body, pos)?
    } else {
        0
    };
    let v_max = if kryo::is_field_present(fl, 5) {
        kryo::read_zigzag_i64(body, pos)?
    } else {
        0
    };
    Ok(
        MemoryPoolSnapshotEvent {
            name: if kryo::is_field_present(fl, 0) {
                Some(v_name)
            } else {
                None
            },
            heap,
            init: if kryo::is_field_present(fl, 2) {
                Some(v_init)
            } else {
                None
            },
            used: if kryo::is_field_present(fl, 3) {
                Some(v_used)
            } else {
                None
            },
            committed: if kryo::is_field_present(fl, 4) {
                Some(v_committed)
            } else {
                None
            },
            max: if kryo::is_field_present(fl, 5) {
                Some(v_max)
            } else {
                None
            },
        },
    )
}

impl BasicMemoryStatsDecoder {
    /// Decodes a wire-257 body.
    #[verifier::loop_isolation(false)]
    pub fn decode(&self, body: &[u8]) -> (r: Result<DecodedEvent, ParseError>)
        ensures
            ({
                let sp = spec_decode(body@);
                match r {
                    Ok(d) => sp matches Ok(se) && d matches DecodedEvent::BasicMemoryStats(e)
                        && e.deep_view() == se,
                    Err(e) => sp == Err::<SpecBasicMemoryStatsEvent, ParseError>(e),
                }
            }),
    {
        let mut pos: usize = 0;
        let flags = kryo::read_flags_byte(body, &mut pos)?;
        let fl = flags as u16;
        let mut table = kryo::StringInternTable::new();
        let v_free = if kryo::is_field_present(fl, 0) {
            kryo::read_zigzag_i64(body, &mut pos)?
        } else {
            0
        };
        let v_total = if kryo::is_field_present(fl, 1) {
            kryo::read_zigzag_i64(body, &mut pos)?
        } else {
            0
        };
        let v_max = if kryo::is_field_present(fl, 2) {
            kryo::read_zigzag_i64(body, &mut pos)?
        } else {
            0
        };
        let mut snapshots: Vec<MemoryPoolSnapshotEvent> = Vec::new();
        proof {
            assert(snapshots.deep_view() =~= Seq::<SpecMemoryPoolSnapshotEvent>::empty());
        }
        if kryo::is_field_present(fl, 3) {
            let n = kryo::read_positive_varint_i32(body, &mut pos)?;
            let count = #[verifier::truncate] (n as usize);
            let ghost base = pos as int;
            let ghost table0 = table@;
            let mut i: usize = 0;
            while i < count
                invariant
                    i <= count,
                    pos <= body@.len(),
                    kryo::spec_read_count_with_table(
                        body@,
                        base,
                        i as nat,
                        table0,
                        snapshot_step(),
                    ) == Ok::<(Seq<SpecMemoryPoolSnapshotEvent>, int, Seq<Seq<char>>), ParseError>(
                        (snapshots.deep_view(), pos as int, table@),
                    ),
                decreases count - i,
            {
                let ghost prev_pos = pos as int;
                let ghost prev_table = table@;
                match decode_memory_pool_snapshot(body, &mut pos, &mut table) {
                    Ok(snap) => {
                        let ghost prev = snapshots.deep_view();
                        let ghost item = snap.deep_view();
                        proof {
                            assert(snapshot_step()(body@, prev_pos, prev_table) == Ok::<
                                (SpecMemoryPoolSnapshotEvent, int, Seq<Seq<char>>),
                                ParseError,
                            >((item, pos as int, table@)));
                        }
                        snapshots.push(snap);
                        proof {
                            assert(snapshots.deep_view() =~= prev.push(item));
                        }
                    },
                    Err(e) => {
                        proof {
                            assert(snapshot_step()(body@, prev_pos, prev_table) == Err::<
                                (SpecMemoryPoolSnapshotEvent, int, Seq<Seq<char>>),
                                ParseError,
                            >(e));
                            kryo::lemma_read_count_with_table_err(
                                body@,
                                base,
                                (i + 1) as nat,
                                count as nat,
                                table0,
                                snapshot_step(),
                            );
                        }
                        return Err(e);
                    },
                }
                i += 1;
            }
        }
        let v_gc_time = if kryo::is_field_present(fl, 4) {
            kryo::read_zigzag_i64(body, &mut pos)?
        } else {
            0
        };
        Ok(
            DecodedEvent::BasicMemoryStats(
                BasicMemoryStatsEvent {
                    free: if kryo::is_field_present(fl, 0) {
                        Some(v_free)
                    } else {
                        None
                    },
                    total: if kryo::is_field_present(fl, 1) {
                        Some(v_total)
                    } else {
                        None
                    },
                    max: if kryo::is_field_present(fl, 2) {
                        Some(v_max)
                    } else {
                        None
                    },
                    peak_snapshots: snapshots,
                    gc_time: if kryo::is_field_present(fl, 4) {
                        Some(v_gc_time)
                    } else {
                        None
                    },
                },
            ),
        )
    }
}

} // verus!

//! Wire 88: one file-property root: a nested file reference, its hash, and
//! a counted list of child entries.

use vstd::prelude::*;

use crate::error::ParseError;
use crate::events::{DecodedEvent, FilePropertyRootChild, FileRef, SpecFilePropertyRootChild,
    SpecFileRef, SpecTaskInputsFilePropertyRootEvent, TaskInputsFilePropertyRootEvent};
use crate::kryo;
use crate::varint;

verus! {

broadcast use crate::kryo::group_deep_view_eq;

pub struct TaskInputsFilePropertyRootDecoder;

/// The nested file reference: its own flags byte, an optional root ordinal
/// and an optional interned path.
pub open spec fn spec_read_file_ref(body: Seq<u8>, pos: int, table: Seq<Seq<char>>) -> Result<
    (SpecFileRef, int, Seq<Seq<char>>),
    ParseError,
> {
    match kryo::spec_read_flags_byte(body, pos) {
        Err(e) => Err(e),
        Ok((flags, p0)) => {
            let fl = flags as u16;
            let r1: Result<(u64, int), ParseError> = if kryo::spec_field_present(fl, 0) {
                kryo::spec_read_enum_ordinal(body, p0)
            } else {
                Ok((0, p0))
            };
            match r1 {
                Err(e) => Err(e),
                Ok((root, p1)) => {
                    let r2: Result<(Seq<char>, int, Seq<Seq<char>>), ParseError> =
                        if kryo::spec_field_present(fl, 1) {
                        kryo::spec_read_string(body, p1, table)
                    } else {
                        Ok((Seq::empty(), p1, table))
                    };
                    match r2 {
                        Err(e) => Err(e),
                        Ok((path, p2, t2)) => Ok(
                            (
                                SpecFileRef {
                                    root: if kryo::spec_field_present(fl, 0) {
                                        Some(root)
                                    } else {
                                        None
                                    },
                                    path: if kryo::spec_field_present(fl, 1) {
                                        Some(path)
                                    } else {
                                        None
                                    },
                                },
                                p2,
                                t2,
                            ),
                        ),
                    }
                },
            }
        },
    }
}

/// One child entry: name, hash and parent index, each optional.
pub open spec fn spec_read_child(body: Seq<u8>, pos: int, table: Seq<Seq<char>>) -> Result<
    (SpecFilePropertyRootChild, int, Seq<Seq<char>>),
    ParseError,
> {
    match kryo::spec_read_flags_byte(body, pos) {
        Err(e) => Err(e),
        Ok((flags, p0)) => {
            let fl = flags as u16;
            let r1: Result<(Seq<char>, int, Seq<Seq<char>>), ParseError> =
                if kryo::spec_field_present(fl, 0) {
                kryo::spec_read_string(body, p0, table)
            } else {
                Ok((Seq::empty(), p0, table))
            };
            match r1 {
                Err(e) => Err(e),
                Ok((name, p1, t1)) => {
                    let r2: Result<(Seq<u8>, int), ParseError> = if kryo::spec_field_present(
                        fl,
                        1,
                    ) {
                        kryo::spec_read_byte_array(body, p1)
                    } else {
                        Ok((Seq::empty(), p1))
                    };
                    match r2 {
                        Err(e) => Err(e),
                        Ok((hash, p2)) => {
                            let r3: Result<(i32, int), ParseError> = if kryo::spec_field_present(
                                fl,
                                2,
                            ) {
                                kryo::spec_read_zigzag_i32(body, p2)
                            } else {
                                Ok((0, p2))
                            };
                            match r3 {
                                Err(e) => Err(e),
                                Ok((parent, p3)) => Ok(
                                    (
                                        SpecFilePropertyRootChild {
                                            name: if kryo::spec_field_present(fl, 0) {
                                                Some(name)
                                            } else {
                                                None
                                            },
                                            hash: if kryo::spec_field_present(fl, 1) {
                                                Some(hash)
                                            } else {
                                                None
                                            },
                                            parent: if kryo::spec_field_present(fl, 2) {
                                                Some(parent)
                                            } else {
                                                None
                                            },
                                        },
                                        p3,
                                        t1,
                                    ),
                                ),
                            }
                        },
                    }
                },
            }
        },
    }
}

pub open spec fn child_step() -> spec_fn(Seq<u8>, int, Seq<Seq<char>>) -> Result<
    (SpecFilePropertyRootChild, int, Seq<Seq<char>>),
    ParseError,
> {
    |d: Seq<u8>, q: int, t: Seq<Seq<char>>| spec_read_child(d, q, t)
}

/// What decoding a wire-88 body yields.
pub open spec fn spec_decode(body: Seq<u8>) -> Result<
    SpecTaskInputsFilePropertyRootEvent,
    ParseError,
> {
    match kryo::spec_read_flags_byte(body, 0) {
        Err(e) => Err(e),
        Ok((flags, p0)) => {
            let fl = flags as u16;
            let r1: Result<(i64, int), ParseError> = if kryo::spec_field_present(fl, 0) {
                kryo::spec_read_task_id(body, p0)
            } else {
                Ok((0, p0))
            };
            match r1 {
                Err(e) => Err(e),
                Ok((id, p1)) => match spec_read_file_ref(body, p1, Seq::empty()) {
                    Err(e) => Err(e),
                    Ok((file, p2, t2)) => {
                        let r3: Result<(Seq<u8>, int), ParseError> = if kryo::spec_field_present(
                            fl,
                            1,
                        ) {
                            kryo::spec_read_byte_array(body, p2)
                        } else {
                            Ok((Seq::empty(), p2))
                        };
                        match r3 {
                            Err(e) => Err(e),
                            Ok((root_hash, p3)) => {
                                let r4: Result<
                                    (Seq<SpecFilePropertyRootChild>, int),
                                    ParseError,
                                > = if kryo::spec_field_present(fl, 2) {
                                    match varint::spec_varint(body, p3) {
                                        Err(e) => Err(e),
                                        Ok((n, p4)) => match kryo::spec_read_count_with_table(
                                            body,
                                            p4,
                                            (n as usize) as nat,
                                            t2,
                                            child_step(),
                                        ) {
                                            Err(e) => Err(e),
                                            Ok((items, p5, _t5)) => Ok((items, p5)),
                                        },
                                    }
                                } else {
                                    Ok((Seq::empty(), p3))
                                };
                                match r4 {
                                    Err(e) => Err(e),
                                    Ok((children, _p5)) => Ok(
                                        SpecTaskInputsFilePropertyRootEvent {
                                            id: if kryo::spec_field_present(fl, 0) {
                                                Some(id)
                                            } else {
                                                None
                                            },
                                            file,
                                            root_hash: if kryo::spec_field_present(fl, 1) {
                                                Some(root_hash)
                                            } else {
                                                None
                                            },
                                            children,
                                        },
                                    ),
                                }
                            },
                        }
                    },
                },
            }
        },
    }
}

/// Reads the nested file reference.
fn decode_file_ref(body: &[u8], pos: &mut usize, table: &mut kryo::StringInternTable) -> (r:
    Result<FileRef, ParseError>)
    ensures
        ({
            let sp = spec_read_file_ref(body@, *old(pos) as int, old(table)@);
            match r {
                Ok(v) => sp matches Ok((se, p, t)) && v.deep_view() == se && *final(pos) == p
                    && final(table)@ == t && *final(pos) <= body@.len(),
                Err(e) => sp == Err::<(SpecFileRef, int, Seq<Seq<char>>), ParseError>(e),
            }
        }),
{
    let flags = kryo::read_flags_byte(body, pos)?;
    let fl = flags as u16;
    let v_root = if kryo::is_field_present(fl, 0) {
        kryo::read_enum_ordinal(body, pos)?
    } else {
        0
    };
    let v_path = if kryo::is_field_present(fl, 1) {
        table.read_string(body, pos)?
    } else {
        String::new()
    };
    Ok(
        FileRef {
            root: if kryo::is_field_present(fl, 0) {
                Some(v_root)
            } else {
                None
            },
            path: if kryo::is_field_present(fl, 1) {
                Some(v_path)
            } else {
                None
            },
        },
    )
}

/// Reads one child entry.
fn decode_child(body: &[u8], pos: &mut usize, table: &mut kryo::StringInternTable) -> (r: Result<
    FilePropertyRootChild,
    ParseError,
>)
    ensures
        ({
            let sp = spec_read_child(body@, *old(pos) as int, old(table)@);
            match r {
                Ok(v) => sp matches Ok((se, p, t)) && v.deep_view() == se && *final(pos) == p
                    && final(table)@ == t && *final(pos) <= body@.len(),
                Err(e) => sp == Err::<(SpecFilePropertyRootChild, int, Seq<Seq<char>>), ParseError>(
                    e,
                ),
            }
        }),
{
    let flags = kryo::read_flags_byte(body, pos)?;
    let fl = flags as u16;
    let v_name = if kryo::is_field_present(fl, 0) {
        table.read_string(body, pos)?
    } else {
        String::new()
    };
    let v_hash = if kryo::is_field_present(fl, 1) {
        kryo::read_byte_array(body, pos)?
    } else {
        Vec::new()
    };
    let v_parent = if kryo::is_field_present(fl, 2) {
        varint::read_zigzag_i32(body, pos)?
    } else {
        0
    };
    Ok(
        FilePropertyRootChild {
            name: if kryo::is_field_present(fl, 0) {
                Some(v_name)
            } else {
                None
            },
            hash: if kryo::is_field_present(fl, 1) {
                Some(v_hash)
            } else {
                None
            },
            parent: if kryo::is_field_present(fl, 2) {
                Some(v_parent)
            } else {
                None
            },
        },
    )
}

impl TaskInputsFilePropertyRootDecoder {
    /// Decodes a wire-88 body.
    #[verifier::loop_isolation(false)]
    pub fn decode(&self, body: &[u8]) -> (r: Result<DecodedEvent, ParseError>)
        ensures
            ({
                let sp = spec_decode(body@);
                match r {
                    Ok(d) => sp matches Ok(se) && d matches
                        DecodedEvent::TaskInputsFilePropertyRoot(e) && e.deep_view() == se,
                    Err(e) => sp == Err::<SpecTaskInputsFilePropertyRootEvent, ParseError>(e),
                }
            }),
    {
        let mut pos: usize = 0;
        let flags = kryo::read_flags_byte(body, &mut pos)?;
        let fl = flags as u16;
        let mut table = kryo::StringInternTable::new();
        let v_id = if kryo::is_field_present(fl, 0) {
            kryo::read_task_id(body, &mut pos)?
        } else {
            0
        };
        let v_file = decode_file_ref(body, &mut pos, &mut table)?;
        let v_root_hash = if kryo::is_field_present(fl, 1) {
            kryo::read_byte_array(body, &mut pos)?
        } else {
            Vec::new()
        };
        let mut children: Vec<FilePropertyRootChild> = Vec::new();
        proof {
            assert(children.deep_view() =~= Seq::<SpecFilePropertyRootChild>::empty());
        }
        if kryo::is_field_present(fl, 2) {
            let n = varint::read_unsigned_varint(body, &mut pos)?;
            let count = #[verifier::truncate] (n as usize);
            let ghost base = pos as int;
            let ghost table0 = table@;
            let mut i: usize = 0;
            while i < count
                invariant
                    i <= count,
                    pos <= body@.len(),
                    kryo::spec_read_count_with_table(body@, base, i as nat, table0, child_step())
                        == Ok::<
                        (Seq<SpecFilePropertyRootChild>, int, Seq<Seq<char>>),
                        ParseError,
                    >((children.deep_view(), pos as int, table@)),
                decreases count - i,
            {
                let ghost prev_pos = pos as int;
                let ghost prev_table = table@;
                match decode_child(body, &mut pos, &mut table) {
                    Ok(child) => {
                        let ghost prev = children.deep_view();
                        let ghost item = child.deep_view();
                        proof {
                            assert(child_step()(body@, prev_pos, prev_table) == Ok::<
                                (SpecFilePropertyRootChild, int, Seq<Seq<char>>),
                                ParseError,
                            >((item, pos as int, table@)));
                        }
                        children.push(child);
                        proof {
                            assert(children.deep_view() =~= prev.push(item));
                        }
                    },
                    Err(e) => {
                        proof {
                            assert(child_step()(body@, prev_pos, prev_table) == Err::<
                                (SpecFilePropertyRootChild, int, Seq<Seq<char>>),
                                ParseError,
                            >(e));
                            kryo::lemma_read_count_with_table_err(
                                body@,
                                base,
                                (i + 1) as nat,
                                count as nat,
                                table0,
                                child_step(),
                            );
                        }
                        return Err(e);
                    },
                }
                i += 1;
            }
        }
        Ok(
            DecodedEvent::TaskInputsFilePropertyRoot(
                TaskInputsFilePropertyRootEvent {
                    id: if kryo::is_field_present(fl, 0) {
                        Some(v_id)
                    } else {
                        None
                    },
                    file: v_file,
                    root_hash: if kryo::is_field_present(fl, 1) {
                        Some(v_root_hash)
                    } else {
                        None
                    },
                    children,
                },
            ),
        )
    }
}

} // verus!

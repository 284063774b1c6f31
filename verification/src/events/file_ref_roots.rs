//! Wire 49: the file-reference root map, a counted list of enum-keyed
//! entries with no flags word.

use vstd::prelude::*;

use crate::error::ParseError;
use crate::events::{DecodedEvent, FileRefRootEntry, FileRefRootsEvent, SpecFileRefRootEntry,
    SpecFileRefRootsEvent};
use crate::kryo;
use crate::varint;

verus! {

broadcast use crate::kryo::group_deep_view_eq;

pub struct FileRefRootsDecoder;

/// One entry: an enum ordinal, then an interned path.
pub open spec fn spec_read_entry(data: Seq<u8>, pos: int, table: Seq<Seq<char>>) -> Result<
    (SpecFileRefRootEntry, int, Seq<Seq<char>>),
    ParseError,
> {
    match kryo::spec_read_enum_ordinal(data, pos) {
        Err(e) => Err(e),
        Ok((ord, p1)) => match kryo::spec_read_string(data, p1, table) {
            Err(e) => Err(e),
            Ok((s, p2, t2)) => Ok((SpecFileRefRootEntry { root_type: ord, path: s }, p2, t2)),
        },
    }
}

pub open spec fn entry_step() -> spec_fn(Seq<u8>, int, Seq<Seq<char>>) -> Result<
    (SpecFileRefRootEntry, int, Seq<Seq<char>>),
    ParseError,
> {
    |d: Seq<u8>, q: int, t: Seq<Seq<char>>| spec_read_entry(d, q, t)
}

/// What decoding a wire-49 body yields.
pub open spec fn spec_decode(body: Seq<u8>) -> Result<SpecFileRefRootsEvent, ParseError> {
    match varint::spec_varint(body, 0) {
        Err(e) => Err(e),
        Ok((n, p)) => match kryo::spec_read_count_with_table(
            body,
            p,
            (n as usize) as nat,
            Seq::empty(),
            entry_step(),
        ) {
            Err(e) => Err(e),
            Ok((items, _p2, _t)) => Ok(SpecFileRefRootsEvent { entries: items }),
        },
    }
}

impl FileRefRootsDecoder {
    /// Decodes a wire-49 body.
    #[verifier::loop_isolation(false)]
    pub fn decode(&self, body: &[u8]) -> (r: Result<DecodedEvent, ParseError>)
        ensures
            ({
                let sp = spec_decode(body@);
                match r {
                    Ok(d) => sp matches Ok(se) && d matches DecodedEvent::FileRefRoots(e)
                        && e.deep_view() == se,
                    Err(e) => sp == Err::<SpecFileRefRootsEvent, ParseError>(e),
                }
            }),
    {
        let mut pos: usize = 0;
        let mut table = kryo::StringInternTable::new();
        let n = varint::read_unsigned_varint(body, &mut pos)?;
        let count = #[verifier::truncate] (n as usize);
        let ghost base = pos as int;
        let mut entries: Vec<FileRefRootEntry> = Vec::new();
        proof {
            assert(entries.deep_view() =~= Seq::<SpecFileRefRootEntry>::empty());
        }
        let mut i: usize = 0;
        while i < count
            invariant
                i <= count,
                pos <= body@.len(),
                varint::spec_varint(body@, 0) == Ok::<(u64, int), ParseError>((n, base)),
                count == n as usize,
                kryo::spec_read_count_with_table(
                    body@,
                    base,
                    i as nat,
                    Seq::empty(),
                    entry_step(),
                ) == Ok::<(Seq<SpecFileRefRootEntry>, int, Seq<Seq<char>>), ParseError>(
                    (entries.deep_view(), pos as int, table@),
                ),
            decreases count - i,
        {
            let ghost prev_pos = pos as int;
            let ghost prev_table = table@;
            let root_type = match kryo::read_enum_ordinal(body, &mut pos) {
                Ok(v) => v,
                Err(e) => {
                    proof {
                        assert(entry_step()(body@, prev_pos, prev_table) == Err::<
                            (SpecFileRefRootEntry, int, Seq<Seq<char>>),
                            ParseError,
                        >(e));
                        kryo::lemma_read_count_with_table_err(
                            body@,
                            base,
                            (i + 1) as nat,
                            count as nat,
                            Seq::empty(),
                            entry_step(),
                        );
                    }
                    return Err(e);
                },
            };
            let path = match table.read_string(body, &mut pos) {
                Ok(v) => v,
                Err(e) => {
                    proof {
                        assert(entry_step()(body@, prev_pos, prev_table) == Err::<
                            (SpecFileRefRootEntry, int, Seq<Seq<char>>),
                            ParseError,
                        >(e));
                        kryo::lemma_read_count_with_table_err(
                            body@,
                            base,
                            (i + 1) as nat,
                            count as nat,
                            Seq::empty(),
                            entry_step(),
                        );
                    }
                    return Err(e);
                },
            };
            let entry = FileRefRootEntry { root_type, path };
            let ghost prev = entries.deep_view();
            let ghost item = entry.deep_view();
            proof {
                assert(entry_step()(body@, prev_pos, prev_table) == Ok::<
                    (SpecFileRefRootEntry, int, Seq<Seq<char>>),
                    ParseError,
                >((item, pos as int, table@)));
            }
            entries.push(entry);
            proof {
                assert(entries.deep_view() =~= prev.push(item));
            }
            i += 1;
        }
        Ok(DecodedEvent::FileRefRoots(FileRefRootsEvent { entries }))
    }
}

} // verus!

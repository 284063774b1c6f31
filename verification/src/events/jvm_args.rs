//! Wire 13: the effective JVM arguments, one unconditional list.

use vstd::prelude::*;

use crate::error::ParseError;
use crate::events::{DecodedEvent, JvmArgsEvent, SpecJvmArgsEvent};
use crate::kryo;

verus! {

broadcast use crate::kryo::group_deep_view_eq;

pub struct JvmArgsDecoder;

/// What decoding a wire-13 body yields.
pub open spec fn spec_decode(body: Seq<u8>) -> Result<SpecJvmArgsEvent, ParseError> {
    {
        let p0 = 0int;
        let t0 = Seq::<Seq<char>>::empty();
        let r1: Result<(Seq<Seq<char>>, int, Seq<Seq<char>>), ParseError> = kryo::spec_read_list_of_interned_strings(body, p0, t0);
        match r1 {
            Err(e) => Err(e),
            Ok((x1, p1, t1)) => {
                Ok(
                    SpecJvmArgsEvent {
                        effective: x1,
                    },
                )
            },
        }
    }
}

impl JvmArgsDecoder {
    /// Decodes a wire-13 body.
    pub fn decode(&self, body: &[u8]) -> (r: Result<DecodedEvent, ParseError>)
        ensures
            ({
                let sp = spec_decode(body@);
                match r {
                    Ok(d) => sp matches Ok(se) && d matches DecodedEvent::JvmArgs(e)
                        && e.deep_view() == se,
                    Err(e) => sp == Err::<SpecJvmArgsEvent, ParseError>(e),
                }
            }),
    {
        let mut pos: usize = 0;
        let mut table = kryo::StringInternTable::new();
        let v_effective = kryo::read_list_of_interned_strings(body, &mut pos, &mut table)?;
        Ok(
            DecodedEvent::JvmArgs(
                JvmArgsEvent {
                    effective: v_effective,
                },
            ),
        )
    }
}

} // verus!

//! Wire 56: the default charset, one unconditional interned string.

use vstd::prelude::*;

use crate::error::ParseError;
use crate::events::{DecodedEvent, EncodingEvent, SpecEncodingEvent};
use crate::kryo;

verus! {

broadcast use crate::kryo::group_deep_view_eq;

pub struct EncodingDecoder;

/// What decoding a wire-56 body yields.
pub open spec fn spec_decode(body: Seq<u8>) -> Result<SpecEncodingEvent, ParseError> {
    {
        let p0 = 0int;
        let t0 = Seq::<Seq<char>>::empty();
        let r1: Result<(Seq<char>, int, Seq<Seq<char>>), ParseError> = kryo::spec_read_string(body, p0, t0);
        match r1 {
            Err(e) => Err(e),
            Ok((x1, p1, t1)) => {
                Ok(
                    SpecEncodingEvent {
                        default_charset: x1,
                    },
                )
            },
        }
    }
}

impl EncodingDecoder {
    /// Decodes a wire-56 body.
    pub fn decode(&self, body: &[u8]) -> (r: Result<DecodedEvent, ParseError>)
        ensures
            ({
                let sp = spec_decode(body@);
                match r {
                    Ok(d) => sp matches Ok(se) && d matches DecodedEvent::Encoding(e)
                        && e.deep_view() == se,
                    Err(e) => sp == Err::<SpecEncodingEvent, ParseError>(e),
                }
            }),
    {
        let mut pos: usize = 0;
        let mut table = kryo::StringInternTable::new();
        let v_default_charset = table.read_string(body, &mut pos)?;
        Ok(
            DecodedEvent::Encoding(
                EncodingEvent {
                    default_charset: v_default_charset,
                },
            ),
        )
    }
}

} // verus!

//! Wire 6: build start, a marker event whose body is empty and whose decode
//! always succeeds, whatever bytes it is handed.

use vstd::prelude::*;

use crate::error::ParseError;
use crate::events::DecodedEvent;

verus! {

pub struct BuildStartedDecoder;

impl BuildStartedDecoder {
    /// Decodes a wire-6 body: nothing is read, so the empty body (and any
    /// other) is accepted.
    pub fn decode(&self, _body: &[u8]) -> (r: Result<DecodedEvent, ParseError>)
        ensures
            r matches Ok(d) && d is BuildStarted,
    {
        Ok(DecodedEvent::BuildStarted)
    }
}

} // verus!

//! Error taxonomy of the decoder. Structural errors carry the byte offset at
//! which the stream lost sync; semantic errors carry the offending value.

use vstd::prelude::*;

verus! {

#[derive(Debug, Clone, PartialEq, Eq)]
pub enum ParseError {
    /// The gzip stream could not be decompressed.
    InvalidGzip,
    /// A LEB128 varint ran past its maximum width.
    MalformedLeb128 { offset: usize },
    /// A read ran past the end of the data.
    UnexpectedEof { offset: usize },
    /// Bytes that should decode to text were not valid UTF-8, or a character
    /// code was not a Unicode scalar value.
    InvalidUtf8,
    /// The outer framing header was malformed.
    InvalidHeader { reason: &'static str },
    /// A string-intern back-reference pointed outside the table.
    InvalidStringRef { index: usize },
    /// An enum ordinal did not name a variant.
    InvalidEnumOrdinal { ordinal: u64, enum_name: &'static str },
    /// A frame carried a wire id with no registered decoder.
    UnknownWireId { wire_id: u16 },
    /// A task event referenced an id with no identity event.
    OrphanTaskEvent { id: i64 },
    /// The event-id state machine met an id it cannot skip safely.
    UnknownEvent { id: u64 },
    /// A primitive of one kind appeared where another was required.
    UnexpectedPrimitive { expected: &'static str },
    /// A millisecond timestamp fell outside the representable range.
    InvalidTimestamp,
}

} // verus!

//! The fixed outer framing header: a big-endian magic, a version, and a
//! length-prefixed blob holding the three tool-identity strings. The
//! compressed region begins immediately after the blob.

use vstd::prelude::*;

use crate::error::ParseError;

verus! {

/// The big-endian 16-bit value at `pos`.
pub open spec fn spec_be16_at(data: Seq<u8>, pos: int) -> u16 {
    (((data[pos] as u16) << 8) | (data[pos + 1] as u16)) as u16
}

/// The header once parsed: identity strings as character sequences, and the
/// offset at which the compressed region starts.
pub ghost struct SpecOuterHeader {
    pub version: u16,
    pub tool_type: Seq<char>,
    pub tool_version: Seq<char>,
    pub plugin_version: Seq<char>,
    pub gzip_offset: int,
}

/// One length-prefixed UTF-8 string of the header blob: a big-endian 16-bit
/// byte length, then that many bytes, all inside `limit`.
pub open spec fn spec_read_utf(data: Seq<u8>, pos: int, limit: int) -> Result<
    (Seq<char>, int),
    ParseError,
> {
    if pos + 2 > limit {
        Err(ParseError::InvalidHeader { reason: "truncated UTF string length" })
    } else {
        let len = spec_be16_at(data, pos) as int;
        let p = pos + 2;
        if p + len > limit {
            Err(ParseError::InvalidHeader { reason: "truncated UTF string data" })
        } else if !vstd::utf8::valid_utf8(data.subrange(p, p + len)) {
            Err(ParseError::InvalidHeader { reason: "non-UTF-8 string bytes" })
        } else {
            Ok((vstd::utf8::decode_utf8(data.subrange(p, p + len)), p + len))
        }
    }
}

/// What parsing the outer header of `data` yields.
pub open spec fn spec_parse_header(data: Seq<u8>) -> Result<SpecOuterHeader, ParseError> {
    if data.len() < 6 {
        Err(ParseError::InvalidHeader { reason: "too short for magic+version+blob_len" })
    } else if spec_be16_at(data, 0) != 0x28C5 {
        Err(ParseError::InvalidHeader { reason: "bad magic bytes" })
    } else {
        let version = spec_be16_at(data, 2);
        let blob_end = 6 + spec_be16_at(data, 4) as int;
        if data.len() < blob_end {
            Err(ParseError::InvalidHeader { reason: "truncated tool version blob" })
        } else {
            match spec_read_utf(data, 6, blob_end) {
                Err(e) => Err(e),
                Ok((tool_type, p1)) => match spec_read_utf(data, p1, blob_end) {
                    Err(e) => Err(e),
                    Ok((tool_version, p2)) => match spec_read_utf(data, p2, blob_end) {
                        Err(e) => Err(e),
                        Ok((plugin_version, _p3)) => Ok(
                            SpecOuterHeader {
                                version,
                                tool_type,
                                tool_version,
                                plugin_version,
                                gzip_offset: blob_end,
                            },
                        ),
                    },
                },
            }
        }
    }
}

/// A payload whose first two bytes are not the magic is rejected as
/// `InvalidHeader`, whatever follows.
pub proof fn lemma_bad_magic_rejected(data: Seq<u8>)
    requires
        data.len() >= 6,
        spec_be16_at(data, 0) != 0x28C5,
    ensures
        spec_parse_header(data) == Err::<SpecOuterHeader, ParseError>(
            ParseError::InvalidHeader { reason: "bad magic bytes" },
        ),
{
}

pub struct OuterHeader {
    pub version: u16,
    pub tool_type: String,
    pub tool_version: String,
    pub plugin_version: String,
    pub gzip_offset: usize,
}

impl OuterHeader {
    /// Parses the outer header: magic `0x28C5`, version, blob length, then
    /// the three identity strings; the compressed region starts at the
    /// returned offset.
    pub fn parse(data: &[u8]) -> (r: Result<OuterHeader, ParseError>)
        ensures
            ({
                let sp = spec_parse_header(data@);
                match r {
                    Ok(h) => sp matches Ok(sh) && h.version == sh.version && h.tool_type@
                        == sh.tool_type && h.tool_version@ == sh.tool_version && h.plugin_version@
                        == sh.plugin_version && h.gzip_offset == sh.gzip_offset && h.gzip_offset
                        <= data@.len(),
                    Err(e) => sp == Err::<SpecOuterHeader, ParseError>(e),
                }
            }),
    {
        if data.len() < 6 {
            return Err(
                ParseError::InvalidHeader { reason: "too short for magic+version+blob_len" },
            );
        }
        let magic = ((data[0] as u16) << 8) | (data[1] as u16);
        if magic != 0x28C5 {
            return Err(ParseError::InvalidHeader { reason: "bad magic bytes" });
        }
        let version = ((data[2] as u16) << 8) | (data[3] as u16);
        let blob_len = (((data[4] as u16) << 8) | (data[5] as u16)) as usize;
        let blob_end = 6 + blob_len;
        if data.len() < blob_end {
            return Err(ParseError::InvalidHeader { reason: "truncated tool version blob" });
        }
        let mut pos: usize = 6;
        let tool_type = Self::read_utf(data, &mut pos, blob_end)?;
        let tool_version = Self::read_utf(data, &mut pos, blob_end)?;
        let plugin_version = Self::read_utf(data, &mut pos, blob_end)?;
        Ok(
            OuterHeader {
                version,
                tool_type,
                tool_version,
                plugin_version,
                gzip_offset: blob_end,
            },
        )
    }

    /// One blob string: big-endian 16-bit length, then UTF-8 bytes, both
    /// fully inside `limit`.
    fn read_utf(data: &[u8], pos: &mut usize, limit: usize) -> (r: Result<String, ParseError>)
        requires
            *old(pos) <= limit,
            limit <= data@.len(),
        ensures
            ({
                let sp = spec_read_utf(data@, *old(pos) as int, limit as int);
                match r {
                    Ok(s) => sp matches Ok((cs, p)) && s@ == cs && *final(pos) == p && *final(pos)
                        <= limit,
                    Err(e) => sp == Err::<(Seq<char>, int), ParseError>(e),
                }
            }),
    {
        if limit - *pos < 2 {
            return Err(ParseError::InvalidHeader { reason: "truncated UTF string length" });
        }
        let len = (((data[*pos] as u16) << 8) | (data[*pos + 1] as u16)) as usize;
        *pos += 2;
        if len > limit - *pos {
            return Err(ParseError::InvalidHeader { reason: "truncated UTF string data" });
        }
        let bytes = vstd::slice::slice_subrange(data, *pos, *pos + len);
        match crate::kryo::bytes_to_str(bytes) {
            Some(s) => {
                let owned = s.to_owned();
                *pos += len;
                Ok(owned)
            },
            None => Err(ParseError::InvalidHeader { reason: "non-UTF-8 string bytes" }),
        }
    }
}

} // verus!

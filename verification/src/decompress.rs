//! Locating and inflating the embedded gzip stream. The scan tolerates
//! extraneous prefix bytes: decompression starts at the first occurrence of
//! the gzip member signature `1F 8B 08`.

use vstd::prelude::*;

use crate::error::ParseError;

verus! {

/// Whether the gzip signature starts at `i`.
pub open spec fn spec_gzip_magic_at(data: Seq<u8>, i: int) -> bool {
    i + 3 <= data.len() && data[i] == 0x1f && data[i + 1] == 0x8b && data[i + 2] == 0x08
}

/// The index decompression starts at: the first occurrence of the gzip
/// signature, or zero when there is none.
pub open spec fn spec_gzip_start(data: Seq<u8>) -> int {
    if exists|i: int| 0 <= i && spec_gzip_magic_at(data, i) {
        choose|i: int|
            0 <= i && spec_gzip_magic_at(data, i) && forall|j: int|
                0 <= j < i ==> !spec_gzip_magic_at(data, j)
    } else {
        0
    }
}

/// What inflating `bytes` as one gzip stream yields, when it inflates at
/// all. Inflation of a given byte sequence is a function of the bytes alone.
pub uninterp spec fn spec_gunzip(bytes: Seq<u8>) -> Option<Seq<u8>>;

/// Relies on flate2::read::GzDecoder together with std::io::Read::read_to_end:
/// inflates the gzip stream at the start of the slice, erring on any
/// malformed input; the outcome depends only on the bytes handed in.
#[verifier::external_body]
fn gunzip(data: &[u8]) -> (r: Result<Vec<u8>, ParseError>)
    ensures
        match r {
            Ok(v) => spec_gunzip(data@) == Some(v@),
            Err(e) => e == ParseError::InvalidGzip && spec_gunzip(data@) == None::<Seq<u8>>,
        },
{
    let mut decoder = flate2::read::GzDecoder::new(data);
    let mut decompressed = Vec::new();
    match std::io::Read::read_to_end(&mut decoder, &mut decompressed) {
        Ok(_) => Ok(decompressed),
        Err(_) => Err(ParseError::InvalidGzip),
    }
}

/// Finds the first occurrence of the gzip signature, or zero without one.
fn find_gzip_start(data: &[u8]) -> (r: usize)
    ensures
        r as int == spec_gzip_start(data@),
        r <= data@.len(),
{
    let end = if data.len() >= 2 {
        data.len() - 2
    } else {
        0
    };
    let mut i: usize = 0;
    while i < end
        invariant
            i <= end,
            end == if data@.len() >= 2 {
                data@.len() - 2
            } else {
                0
            },
            forall|j: int| 0 <= j < i ==> !spec_gzip_magic_at(data@, j),
        decreases end - i,
    {
        if data[i] == 0x1f && data[i + 1] == 0x8b && data[i + 2] == 0x08 {
            proof {
                let w = i as int;
                assert(spec_gzip_magic_at(data@, w));
                assert(0 <= w && spec_gzip_magic_at(data@, w) && forall|j: int|
                    0 <= j < w ==> !spec_gzip_magic_at(data@, j));
                let c = choose|k: int|
                    0 <= k && spec_gzip_magic_at(data@, k) && forall|j: int|
                        0 <= j < k ==> !spec_gzip_magic_at(data@, j);
                if c < w {
                    assert(!spec_gzip_magic_at(data@, c));
                }
                if c > w {
                    assert(!spec_gzip_magic_at(data@, w));
                }
                assert(spec_gzip_start(data@) == w);
            }
            return i;
        }
        i += 1;
    }
    proof {
        assert forall|j: int| 0 <= j implies !spec_gzip_magic_at(data@, j) by {
            if j < end {
                assert(!spec_gzip_magic_at(data@, j));
            } else {
                assert(j + 3 > data@.len());
            }
        }
        assert(spec_gzip_start(data@) == 0);
    }
    0
}

pub struct Decompressor;

impl Decompressor {
    /// Scans forward for the gzip signature and inflates from there; with no
    /// signature anywhere, inflation is attempted at offset zero, as a plain
    /// gzip stream needs no scan.
    pub fn decompress(raw_data: &[u8]) -> (r: Result<Vec<u8>, ParseError>)
        ensures
            ({
                let sp = spec_gunzip(raw_data@.skip(spec_gzip_start(raw_data@)));
                match r {
                    Ok(v) => sp == Some(v@),
                    Err(e) => e == ParseError::InvalidGzip && sp == None::<Seq<u8>>,
                }
            }),
    {
        let start_idx = find_gzip_start(raw_data);
        let tail = vstd::slice::slice_subrange(raw_data, start_idx, raw_data.len());
        proof {
            assert(tail@ =~= raw_data@.skip(spec_gzip_start(raw_data@)));
        }
        gunzip(tail)
    }
}

} // verus!

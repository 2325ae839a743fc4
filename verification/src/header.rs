//! The magic header: the first four bytes of a `.pyc` file.

use vstd::prelude::*;
use crate::errors::PycError;

verus! {

/// The first four bytes of a candidate file.
///
/// Bytes 2 and 3 must equal the fixed trailer `{0x0D, 0x0A}` for the file to
/// be a valid `.pyc` header; bytes 0 and 1 encode the version magic value in
/// little-endian order.
#[derive(Clone, Copy, PartialEq, Eq, Structural, Debug)]
pub struct MagicHeader {
    pub b0: u8,
    pub b1: u8,
    pub b2: u8,
    pub b3: u8,
}

/// The header formed from the first four bytes of `data`.
pub open spec fn spec_header_of(data: Seq<u8>) -> MagicHeader {
    MagicHeader { b0: data[0], b1: data[1], b2: data[2], b3: data[3] }
}

/// Whether the fixed trailer bytes at positions 2-3 are `{0x0D, 0x0A}`.
pub open spec fn spec_trailer_ok(h: MagicHeader) -> bool {
    h.b2 == 0x0D && h.b3 == 0x0A
}

/// The version code reconstructed from the first two header bytes,
/// little-endian: `(byte1 << 8) + byte0`.
pub open spec fn spec_version_code(h: MagicHeader) -> int {
    h.b1 * 256 + h.b0
}

/// Extracts the header from a candidate file's bytes.
///
/// Fails with `TruncatedInput` when fewer than four bytes are available;
/// performs no interpretation of the bytes beyond length-checking.
pub fn read_header(data: &Vec<u8>) -> (r: Result<MagicHeader, PycError>)
    ensures
        data@.len() >= 4 ==> r == Ok::<MagicHeader, PycError>(spec_header_of(data@)),
        data@.len() < 4 ==> r == Err::<MagicHeader, PycError>(PycError::TruncatedInput),
{
    if data.len() < 4 {
        Err(PycError::TruncatedInput)
    } else {
        Ok(MagicHeader { b0: data[0], b1: data[1], b2: data[2], b3: data[3] })
    }
}

/// The version code of a header, as an executable function.
pub fn version_code(h: &MagicHeader) -> (r: u32)
    ensures
        r == spec_version_code(*h),
{
    (h.b1 as u32) * 256 + (h.b0 as u32)
}

} // verus!

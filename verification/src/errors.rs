//! Failure taxonomy for handling one candidate file.

use vstd::prelude::*;
use crate::header::MagicHeader;

verus! {

/// Why handling a candidate file failed.
///
/// Every variant is fatal for the file in hand and is surfaced to the
/// caller; the only non-error "stop" outcome of the pipeline is a skip for
/// an ineligible (Python 2.x) file.  Where a header was read, the error
/// carries its raw bytes for diagnostics; the surrounding program adds the
/// offending path when it reports the failure.
#[derive(Clone, Copy, PartialEq, Eq, Structural, Debug)]
pub enum PycError {
    /// Fewer than four header bytes were available.
    TruncatedInput,
    /// The fixed trailer bytes at positions 2-3 were not `{0x0D, 0x0A}`.
    NotAPycFile(MagicHeader),
    /// The version code matched no exact legacy code and no range.
    UnknownPycVersion(MagicHeader),
    /// The collaborator that performs the normalization transform failed.
    TransformFailed,
    /// Reading the input or committing the result failed in the
    /// surrounding program.
    Io,
}

} // verus!

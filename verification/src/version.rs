//! The version-classification engine: resolving a header's magic value to an
//! interpreter-version label, and deciding eligibility for normalization.

use vstd::prelude::*;
use crate::errors::PycError;
use crate::header::{MagicHeader, spec_trailer_ok, spec_version_code, version_code};

verus! {

/// The closed set of known interpreter-version labels.
///
/// A value of this type is produced exclusively by version resolution; the
/// textual label of each variant is given by [`ResolvedVersion::spec_label`].
#[derive(Clone, Copy, PartialEq, Eq, Structural, Debug)]
pub enum ResolvedVersion {
    V1_5,
    V1_6,
    V2_0,
    V2_1,
    V2_2,
    V2_3,
    V2_4,
    V2_5,
    V2_6,
    V2_7,
    V3_0,
    V3_1,
    V3_2,
    V3_3,
    V3_4,
    V3_5,
    V3_6,
    V3_7,
    V3_8,
    V3_9,
    V3_10,
    V3_11,
    V3_12,
    V3_13,
    V3_14Plus,
}

impl ResolvedVersion {
    /// The textual label of this version, e.g. `"2.7"` or `"3.14+"`.
    pub open spec fn spec_label(self) -> Seq<char> {
        match self {
            ResolvedVersion::V1_5 => "1.5"@,
            ResolvedVersion::V1_6 => "1.6"@,
            ResolvedVersion::V2_0 => "2.0"@,
            ResolvedVersion::V2_1 => "2.1"@,
            ResolvedVersion::V2_2 => "2.2"@,
            ResolvedVersion::V2_3 => "2.3"@,
            ResolvedVersion::V2_4 => "2.4"@,
            ResolvedVersion::V2_5 => "2.5"@,
            ResolvedVersion::V2_6 => "2.6"@,
            ResolvedVersion::V2_7 => "2.7"@,
            ResolvedVersion::V3_0 => "3.0"@,
            ResolvedVersion::V3_1 => "3.1"@,
            ResolvedVersion::V3_2 => "3.2"@,
            ResolvedVersion::V3_3 => "3.3"@,
            ResolvedVersion::V3_4 => "3.4"@,
            ResolvedVersion::V3_5 => "3.5"@,
            ResolvedVersion::V3_6 => "3.6"@,
            ResolvedVersion::V3_7 => "3.7"@,
            ResolvedVersion::V3_8 => "3.8"@,
            ResolvedVersion::V3_9 => "3.9"@,
            ResolvedVersion::V3_10 => "3.10"@,
            ResolvedVersion::V3_11 => "3.11"@,
            ResolvedVersion::V3_12 => "3.12"@,
            ResolvedVersion::V3_13 => "3.13"@,
            ResolvedVersion::V3_14Plus => "3.14+"@,
        }
    }

    /// The textual label of this version, as an executable function.
    pub fn label(&self) -> (r: &'static str)
        ensures
            r@ == self.spec_label(),
    {
        match self {
            ResolvedVersion::V1_5 => "1.5",
            ResolvedVersion::V1_6 => "1.6",
            ResolvedVersion::V2_0 => "2.0",
            ResolvedVersion::V2_1 => "2.1",
            ResolvedVersion::V2_2 => "2.2",
            ResolvedVersion::V2_3 => "2.3",
            ResolvedVersion::V2_4 => "2.4",
            ResolvedVersion::V2_5 => "2.5",
            ResolvedVersion::V2_6 => "2.6",
            ResolvedVersion::V2_7 => "2.7",
            ResolvedVersion::V3_0 => "3.0",
            ResolvedVersion::V3_1 => "3.1",
            ResolvedVersion::V3_2 => "3.2",
            ResolvedVersion::V3_3 => "3.3",
            ResolvedVersion::V3_4 => "3.4",
            ResolvedVersion::V3_5 => "3.5",
            ResolvedVersion::V3_6 => "3.6",
            ResolvedVersion::V3_7 => "3.7",
            ResolvedVersion::V3_8 => "3.8",
            ResolvedVersion::V3_9 => "3.9",
            ResolvedVersion::V3_10 => "3.10",
            ResolvedVersion::V3_11 => "3.11",
            ResolvedVersion::V3_12 => "3.12",
            ResolvedVersion::V3_13 => "3.13",
            ResolvedVersion::V3_14Plus => "3.14+",
        }
    }

    /// Whether a file of this version is eligible for normalization.
    ///
    /// The Python 2.x series is never eligible (skipped, not an error);
    /// every other known version is.
    pub open spec fn spec_eligible(self) -> bool {
        match self {
            ResolvedVersion::V2_0 => false,
            ResolvedVersion::V2_1 => false,
            ResolvedVersion::V2_2 => false,
            ResolvedVersion::V2_3 => false,
            ResolvedVersion::V2_4 => false,
            ResolvedVersion::V2_5 => false,
            ResolvedVersion::V2_6 => false,
            ResolvedVersion::V2_7 => false,
            _ => true,
        }
    }

    /// The eligibility gate, as an executable function.
    pub fn eligible(&self) -> (r: bool)
        ensures
            r == self.spec_eligible(),
    {
        match self {
            ResolvedVersion::V2_0 => false,
            ResolvedVersion::V2_1 => false,
            ResolvedVersion::V2_2 => false,
            ResolvedVersion::V2_3 => false,
            ResolvedVersion::V2_4 => false,
            ResolvedVersion::V2_5 => false,
            ResolvedVersion::V2_6 => false,
            ResolvedVersion::V2_7 => false,
            _ => true,
        }
    }
}

/// The ordered resolution table, tested top to bottom; the first matching
/// row wins.
///
/// The table has two parts: exact legacy codes for pre-3.0 interpreters
/// (several codes map many-to-one onto a single label), then inclusive
/// ranges that all begin at 3000 and end at successively larger upper
/// bounds.  Because the ranges share their lower bound and are listed in
/// increasing upper-bound order, any code at or above 3000 resolves to the
/// first range whose upper bound reaches it — a code such as 3520 resolves
/// to the row ending at 3531, not to the version it nominally belongs to.
/// First-match-wins in the order given is the deliberate contract here, not
/// narrowest-enclosing-range.  (Two adjacent rows, ending at 3151 and 3160,
/// carry the same label.)
pub open spec fn spec_resolve_code(code: int) -> Option<ResolvedVersion> {
    if code == 20121 {
        Some(ResolvedVersion::V1_5)
    } else if code == 50428 {
        Some(ResolvedVersion::V1_6)
    } else if code == 50823 {
        Some(ResolvedVersion::V2_0)
    } else if code == 60202 {
        Some(ResolvedVersion::V2_1)
    } else if code == 60717 {
        Some(ResolvedVersion::V2_2)
    } else if code == 62011 || code == 62021 {
        Some(ResolvedVersion::V2_3)
    } else if code == 62041 || code == 62051 || code == 62061 {
        Some(ResolvedVersion::V2_4)
    } else if code == 62071 || code == 62081 || code == 62091 || code == 62092
            || code == 62101 || code == 62111 || code == 62121 || code == 62131 {
        Some(ResolvedVersion::V2_5)
    } else if code == 62151 || code == 62161 {
        Some(ResolvedVersion::V2_6)
    } else if code == 62171 || code == 62181 || code == 62191 || code == 62201
            || code == 62211 {
        Some(ResolvedVersion::V2_7)
    } else if 3000 <= code && code <= 3131 {
        Some(ResolvedVersion::V3_0)
    } else if 3000 <= code && code <= 3151 {
        Some(ResolvedVersion::V3_1)
    } else if 3000 <= code && code <= 3160 {
        Some(ResolvedVersion::V3_1)
    } else if 3000 <= code && code <= 3180 {
        Some(ResolvedVersion::V3_2)
    } else if 3000 <= code && code <= 3230 {
        Some(ResolvedVersion::V3_3)
    } else if 3000 <= code && code <= 3310 {
        Some(ResolvedVersion::V3_4)
    } else if 3000 <= code && code <= 3351 {
        Some(ResolvedVersion::V3_5)
    } else if 3000 <= code && code <= 3379 {
        Some(ResolvedVersion::V3_6)
    } else if 3000 <= code && code <= 3394 {
        Some(ResolvedVersion::V3_7)
    } else if 3000 <= code && code <= 3413 {
        Some(ResolvedVersion::V3_8)
    } else if 3000 <= code && code <= 3425 {
        Some(ResolvedVersion::V3_9)
    } else if 3000 <= code && code <= 3439 {
        Some(ResolvedVersion::V3_10)
    } else if 3000 <= code && code <= 3495 {
        Some(ResolvedVersion::V3_11)
    } else if 3000 <= code && code <= 3531 {
        Some(ResolvedVersion::V3_12)
    } else if 3000 <= code && code <= 3600 {
        Some(ResolvedVersion::V3_13)
    } else if 3600 <= code && code <= 4000 {
        Some(ResolvedVersion::V3_14Plus)
    } else {
        None
    }
}

/// Resolves a version code against the ordered table, first match wins.
pub fn resolve_code(code: u32) -> (r: Option<ResolvedVersion>)
    ensures
        r == spec_resolve_code(code as int),
{
    if code == 20121 {
        Some(ResolvedVersion::V1_5)
    } else if code == 50428 {
        Some(ResolvedVersion::V1_6)
    } else if code == 50823 {
        Some(ResolvedVersion::V2_0)
    } else if code == 60202 {
        Some(ResolvedVersion::V2_1)
    } else if code == 60717 {
        Some(ResolvedVersion::V2_2)
    } else if code == 62011 || code == 62021 {
        Some(ResolvedVersion::V2_3)
    } else if code == 62041 || code == 62051 || code == 62061 {
        Some(ResolvedVersion::V2_4)
    } else if code == 62071 || code == 62081 || code == 62091 || code == 62092
            || code == 62101 || code == 62111 || code == 62121 || code == 62131 {
        Some(ResolvedVersion::V2_5)
    } else if code == 62151 || code == 62161 {
        Some(ResolvedVersion::V2_6)
    } else if code == 62171 || code == 62181 || code == 62191 || code == 62201
            || code == 62211 {
        Some(ResolvedVersion::V2_7)
    } else if 3000 <= code && code <= 3131 {
        Some(ResolvedVersion::V3_0)
    } else if 3000 <= code && code <= 3151 {
        Some(ResolvedVersion::V3_1)
    } else if 3000 <= code && code <= 3160 {
        Some(ResolvedVersion::V3_1)
    } else if 3000 <= code && code <= 3180 {
        Some(ResolvedVersion::V3_2)
    } else if 3000 <= code && code <= 3230 {
        Some(ResolvedVersion::V3_3)
    } else if 3000 <= code && code <= 3310 {
        Some(ResolvedVersion::V3_4)
    } else if 3000 <= code && code <= 3351 {
        Some(ResolvedVersion::V3_5)
    } else if 3000 <= code && code <= 3379 {
        Some(ResolvedVersion::V3_6)
    } else if 3000 <= code && code <= 3394 {
        Some(ResolvedVersion::V3_7)
    } else if 3000 <= code && code <= 3413 {
        Some(ResolvedVersion::V3_8)
    } else if 3000 <= code && code <= 3425 {
        Some(ResolvedVersion::V3_9)
    } else if 3000 <= code && code <= 3439 {
        Some(ResolvedVersion::V3_10)
    } else if 3000 <= code && code <= 3495 {
        Some(ResolvedVersion::V3_11)
    } else if 3000 <= code && code <= 3531 {
        Some(ResolvedVersion::V3_12)
    } else if 3000 <= code && code <= 3600 {
        Some(ResolvedVersion::V3_13)
    } else if 3600 <= code && code <= 4000 {
        Some(ResolvedVersion::V3_14Plus)
    } else {
        None
    }
}

/// The whole version resolver: trailer check, then code resolution.
pub open spec fn spec_resolve_header(h: MagicHeader) -> Result<ResolvedVersion, PycError> {
    if !spec_trailer_ok(h) {
        Err(PycError::NotAPycFile(h))
    } else {
        match spec_resolve_code(spec_version_code(h)) {
            Some(v) => Ok(v),
            None => Err(PycError::UnknownPycVersion(h)),
        }
    }
}

/// Resolves a header to an interpreter version.
///
/// Fails with `NotAPycFile` when the fixed trailer bytes do not match
/// (whatever bytes 0-1 hold), and with `UnknownPycVersion` when the version
/// code matches no row of the table.
pub fn resolve_header(h: &MagicHeader) -> (r: Result<ResolvedVersion, PycError>)
    ensures
        r == spec_resolve_header(*h),
{
    if h.b2 != 0x0D || h.b3 != 0x0A {
        return Err(PycError::NotAPycFile(*h));
    }
    let code = version_code(h);
    match resolve_code(code) {
        Some(v) => Ok(v),
        None => Err(PycError::UnknownPycVersion(*h)),
    }
}

/// Header verification as the pipeline uses it: `Ok(true)` for a valid,
/// eligible pyc header, `Ok(false)` for a valid header of an ineligible
/// (Python 2.x) version, and an error for anything that is not a known pyc
/// header.
pub open spec fn spec_verify(h: MagicHeader) -> Result<bool, PycError> {
    match spec_resolve_header(h) {
        Ok(v) => Ok(v.spec_eligible()),
        Err(e) => Err(e),
    }
}

/// Decides whether the file behind a header should be normalized.
///
/// Returns `Ok(true)` exactly for valid headers whose version is outside
/// the Python 2.x series, `Ok(false)` for valid Python 2.x headers, and the
/// resolver's error otherwise.
pub fn verify_python3_pyc(h: &MagicHeader) -> (r: Result<bool, PycError>)
    ensures
        r == spec_verify(*h),
        !spec_trailer_ok(*h) ==> r == Err::<bool, PycError>(PycError::NotAPycFile(*h)),
        spec_trailer_ok(*h) && spec_resolve_code(spec_version_code(*h)) is None
            ==> r == Err::<bool, PycError>(PycError::UnknownPycVersion(*h)),
        forall|v: ResolvedVersion|
            spec_trailer_ok(*h) && spec_resolve_code(spec_version_code(*h)) == Some(v)
                ==> r == Ok::<bool, PycError>(v.spec_eligible()),
{
    match resolve_header(h) {
        Ok(v) => Ok(v.eligible()),
        Err(e) => Err(e),
    }
}

/// No version code below 3000 resolves: every exact legacy code in the
/// table lies above 3000, and every range row begins at 3000.
pub proof fn lemma_below_3000_unknown(code: int)
    requires
        code < 3000,
    ensures
        spec_resolve_code(code) is None,
{
}

/// First match wins: every code in `[3000, 3131]` resolves to the first
/// range row, labelled `"3.0"`, even though some of those codes nominally
/// belong to later minor versions.
pub proof fn lemma_low_range_resolves_to_3_0(code: int)
    requires
        3000 <= code <= 3131,
    ensures
        spec_resolve_code(code) == Some(ResolvedVersion::V3_0),
        ResolvedVersion::V3_0.spec_label() == "3.0"@,
{
}

/// Eligibility follows the label's leading character: a version is
/// ineligible exactly when its label begins with `'2'`.
pub proof fn lemma_eligibility_follows_label(v: ResolvedVersion)
    ensures
        v.spec_label().len() > 0,
        v.spec_eligible() <==> v.spec_label()[0] != '2',
{
    match v {
        ResolvedVersion::V1_5 => {
            reveal_strlit("1.5");
            assert(v.spec_label()[0] == '1');
        },
        ResolvedVersion::V1_6 => {
            reveal_strlit("1.6");
            assert(v.spec_label()[0] == '1');
        },
        ResolvedVersion::V2_0 => {
            reveal_strlit("2.0");
            assert(v.spec_label()[0] == '2');
        },
        ResolvedVersion::V2_1 => {
            reveal_strlit("2.1");
            assert(v.spec_label()[0] == '2');
        },
        ResolvedVersion::V2_2 => {
            reveal_strlit("2.2");
            assert(v.spec_label()[0] == '2');
        },
        ResolvedVersion::V2_3 => {
            reveal_strlit("2.3");
            assert(v.spec_label()[0] == '2');
        },
        ResolvedVersion::V2_4 => {
            reveal_strlit("2.4");
            assert(v.spec_label()[0] == '2');
        },
        ResolvedVersion::V2_5 => {
            reveal_strlit("2.5");
            assert(v.spec_label()[0] == '2');
        },
        ResolvedVersion::V2_6 => {
            reveal_strlit("2.6");
            assert(v.spec_label()[0] == '2');
        },
        ResolvedVersion::V2_7 => {
            reveal_strlit("2.7");
            assert(v.spec_label()[0] == '2');
        },
        ResolvedVersion::V3_0 => {
            reveal_strlit("3.0");
            assert(v.spec_label()[0] == '3');
        },
        ResolvedVersion::V3_1 => {
            reveal_strlit("3.1");
            assert(v.spec_label()[0] == '3');
        },
        ResolvedVersion::V3_2 => {
            reveal_strlit("3.2");
            assert(v.spec_label()[0] == '3');
        },
        ResolvedVersion::V3_3 => {
            reveal_strlit("3.3");
            assert(v.spec_label()[0] == '3');
        },
        ResolvedVersion::V3_4 => {
            reveal_strlit("3.4");
            assert(v.spec_label()[0] == '3');
        },
        ResolvedVersion::V3_5 => {
            reveal_strlit("3.5");
            assert(v.spec_label()[0] == '3');
        },
        ResolvedVersion::V3_6 => {
            reveal_strlit("3.6");
            assert(v.spec_label()[0] == '3');
        },
        ResolvedVersion::V3_7 => {
            reveal_strlit("3.7");
            assert(v.spec_label()[0] == '3');
        },
        ResolvedVersion::V3_8 => {
            reveal_strlit("3.8");
            assert(v.spec_label()[0] == '3');
        },
        ResolvedVersion::V3_9 => {
            reveal_strlit("3.9");
            assert(v.spec_label()[0] == '3');
        },
        ResolvedVersion::V3_10 => {
            reveal_strlit("3.10");
            assert(v.spec_label()[0] == '3');
        },
        ResolvedVersion::V3_11 => {
            reveal_strlit("3.11");
            assert(v.spec_label()[0] == '3');
        },
        ResolvedVersion::V3_12 => {
            reveal_strlit("3.12");
            assert(v.spec_label()[0] == '3');
        },
        ResolvedVersion::V3_13 => {
            reveal_strlit("3.13");
            assert(v.spec_label()[0] == '3');
        },
        ResolvedVersion::V3_14Plus => {
            reveal_strlit("3.14+");
            assert(v.spec_label()[0] == '3');
        },
    }
}

} // verus!

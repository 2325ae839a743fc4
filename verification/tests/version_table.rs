use pyc_normalize::errors::PycError;
use pyc_normalize::header::{read_header, version_code, MagicHeader};
use pyc_normalize::version::{resolve_code, resolve_header, verify_python3_pyc, ResolvedVersion};

fn header(b0: u8, b1: u8, b2: u8, b3: u8) -> MagicHeader {
    MagicHeader { b0, b1, b2, b3 }
}

#[test]
fn legacy_exact_codes() {
    assert_eq!(resolve_code(20121), Some(ResolvedVersion::V1_5));
    assert_eq!(resolve_code(50428), Some(ResolvedVersion::V1_6));
    assert_eq!(resolve_code(50823), Some(ResolvedVersion::V2_0));
    assert_eq!(resolve_code(60202), Some(ResolvedVersion::V2_1));
    assert_eq!(resolve_code(60717), Some(ResolvedVersion::V2_2));
    assert_eq!(resolve_code(62011), Some(ResolvedVersion::V2_3));
    assert_eq!(resolve_code(62021), Some(ResolvedVersion::V2_3));
    assert_eq!(resolve_code(62061), Some(ResolvedVersion::V2_4));
    assert_eq!(resolve_code(62092), Some(ResolvedVersion::V2_5));
    assert_eq!(resolve_code(62131), Some(ResolvedVersion::V2_5));
    assert_eq!(resolve_code(62161), Some(ResolvedVersion::V2_6));
    assert_eq!(resolve_code(62171), Some(ResolvedVersion::V2_7));
    assert_eq!(resolve_code(62211), Some(ResolvedVersion::V2_7));
    assert_eq!(resolve_code(20121).unwrap().label(), "1.5");
    assert_eq!(resolve_code(62211).unwrap().label(), "2.7");
}

#[test]
fn codes_below_3000_are_unknown() {
    assert_eq!(resolve_code(0), None);
    assert_eq!(resolve_code(1), None);
    assert_eq!(resolve_code(2999), None);
    assert_eq!(resolve_code(1234), None);
}

#[test]
fn codes_outside_every_row_are_unknown() {
    assert_eq!(resolve_code(4001), None);
    assert_eq!(resolve_code(20122), None);
    assert_eq!(resolve_code(65535), None);
}

#[test]
fn first_match_wins_in_low_range() {
    // every code in [3000, 3131] resolves to "3.0", even codes that
    // nominally belong to later minor versions
    assert_eq!(resolve_code(3000), Some(ResolvedVersion::V3_0));
    assert_eq!(resolve_code(3101), Some(ResolvedVersion::V3_0));
    assert_eq!(resolve_code(3111), Some(ResolvedVersion::V3_0));
    assert_eq!(resolve_code(3131), Some(ResolvedVersion::V3_0));
    assert_eq!(resolve_code(3000).unwrap().label(), "3.0");
    // the first row past 3131 takes over at 3132
    assert_eq!(resolve_code(3132), Some(ResolvedVersion::V3_1));
    // a code of a late version resolves to the first row that reaches it
    assert_eq!(resolve_code(3520), Some(ResolvedVersion::V3_12));
}

#[test]
fn boundary_3600_resolves_to_3_13() {
    // 3600 falls in the 3000..=3600 row, which comes before 3600..=4000
    assert_eq!(resolve_code(3600), Some(ResolvedVersion::V3_13));
    assert_eq!(resolve_code(3600).unwrap().label(), "3.13");
    assert_eq!(resolve_code(3601), Some(ResolvedVersion::V3_14Plus));
    assert_eq!(resolve_code(4000), Some(ResolvedVersion::V3_14Plus));
    assert_eq!(resolve_code(3601).unwrap().label(), "3.14+");
}

#[test]
fn eligibility_by_series() {
    assert!(ResolvedVersion::V1_5.eligible());
    assert!(ResolvedVersion::V1_6.eligible());
    assert!(!ResolvedVersion::V2_0.eligible());
    assert!(!ResolvedVersion::V2_3.eligible());
    assert!(!ResolvedVersion::V2_7.eligible());
    assert!(ResolvedVersion::V3_0.eligible());
    assert!(ResolvedVersion::V3_13.eligible());
    assert!(ResolvedVersion::V3_14Plus.eligible());
}

#[test]
fn labels_and_eligibility_agree_on_leading_char() {
    let all = [
        ResolvedVersion::V1_5,
        ResolvedVersion::V1_6,
        ResolvedVersion::V2_0,
        ResolvedVersion::V2_1,
        ResolvedVersion::V2_2,
        ResolvedVersion::V2_3,
        ResolvedVersion::V2_4,
        ResolvedVersion::V2_5,
        ResolvedVersion::V2_6,
        ResolvedVersion::V2_7,
        ResolvedVersion::V3_0,
        ResolvedVersion::V3_1,
        ResolvedVersion::V3_2,
        ResolvedVersion::V3_3,
        ResolvedVersion::V3_4,
        ResolvedVersion::V3_5,
        ResolvedVersion::V3_6,
        ResolvedVersion::V3_7,
        ResolvedVersion::V3_8,
        ResolvedVersion::V3_9,
        ResolvedVersion::V3_10,
        ResolvedVersion::V3_11,
        ResolvedVersion::V3_12,
        ResolvedVersion::V3_13,
        ResolvedVersion::V3_14Plus,
    ];
    for v in all {
        let starts_with_2 = v.label().starts_with('2');
        assert_eq!(v.eligible(), !starts_with_2);
    }
}

#[test]
fn read_header_requires_four_bytes() {
    assert_eq!(read_header(&vec![]), Err(PycError::TruncatedInput));
    assert_eq!(read_header(&vec![0x0D]), Err(PycError::TruncatedInput));
    assert_eq!(read_header(&vec![1, 2, 3]), Err(PycError::TruncatedInput));
    assert_eq!(
        read_header(&vec![85, 13, 0x0D, 0x0A]),
        Ok(header(85, 13, 0x0D, 0x0A))
    );
    // only the first four bytes form the header
    assert_eq!(
        read_header(&vec![85, 13, 0x0D, 0x0A, 0xFF, 0xFF]),
        Ok(header(85, 13, 0x0D, 0x0A))
    );
}

#[test]
fn version_code_is_little_endian() {
    // 13 * 256 + 85 == 3413
    assert_eq!(version_code(&header(85, 13, 0x0D, 0x0A)), 3413);
    // 78 * 256 + 153 == 20121
    assert_eq!(version_code(&header(153, 78, 0x0D, 0x0A)), 20121);
    assert_eq!(version_code(&header(0, 0, 0x0D, 0x0A)), 0);
    assert_eq!(version_code(&header(0xFF, 0xFF, 0x0D, 0x0A)), 65535);
}

#[test]
fn bad_trailer_is_not_a_pyc_file() {
    // bytes 2-3 must be {0x0D, 0x0A}, whatever bytes 0-1 hold
    let h = header(85, 13, 0x00, 0x0A);
    assert_eq!(resolve_header(&h), Err(PycError::NotAPycFile(h)));
    let h = header(85, 13, 0x0D, 0x00);
    assert_eq!(verify_python3_pyc(&h), Err(PycError::NotAPycFile(h)));
    let h = header(0, 0, 0xFF, 0xFF);
    assert_eq!(verify_python3_pyc(&h), Err(PycError::NotAPycFile(h)));
}

#[test]
fn verify_classifies_headers() {
    // 3413 -> "3.8": eligible
    let h = header(85, 13, 0x0D, 0x0A);
    assert_eq!(resolve_header(&h), Ok(ResolvedVersion::V3_8));
    assert_eq!(verify_python3_pyc(&h), Ok(true));
    // 62211 -> "2.7": valid but skipped
    let h = header(3, 243, 0x0D, 0x0A);
    assert_eq!(resolve_header(&h), Ok(ResolvedVersion::V2_7));
    assert_eq!(verify_python3_pyc(&h), Ok(false));
    // 20121 -> "1.5": eligible (only the 2.x series is skipped)
    let h = header(153, 78, 0x0D, 0x0A);
    assert_eq!(verify_python3_pyc(&h), Ok(true));
    // 2999 matches no row
    let h = header(0xB7, 0x0B, 0x0D, 0x0A);
    assert_eq!(version_code(&h), 2999);
    assert_eq!(verify_python3_pyc(&h), Err(PycError::UnknownPycVersion(h)));
}

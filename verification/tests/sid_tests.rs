use std::borrow::Borrow;
use std::collections::HashMap;
use std::mem::size_of;

use safe_sid::authority::{SECURITY_NT_AUTHORITY, SECURITY_NULL_SID_AUTHORITY, MAX_AUTHORITY};
use safe_sid::bytes::SID_HEADER_BYTES;
use safe_sid::{Error, Sid, SidBuf, SidParseError, ERROR_INVALID_SID, SID_MAX_SUB_AUTHORITIES, SID_REVISION};

fn nt_sid(sub_authorities: &[u32]) -> SidBuf {
    SidBuf::new(SECURITY_NT_AUTHORITY, sub_authorities).unwrap()
}

#[test]
fn new_enforces_the_sub_authority_limit() {
    assert_eq!(
        SidBuf::new([0; 6], &[7; 15]).unwrap().sub_authority_count(),
        15
    );
    assert_eq!(
        SidBuf::new([0; 6], &[0; 16]).unwrap_err(),
        Error::TooManySubAuthorities
    );
}

#[test]
fn from_bytes_copies_aligned_and_unaligned_sids() {
    let expected = nt_sid(&[32, 544]);
    let bytes = expected.as_bytes();

    assert_eq!(SidBuf::from_bytes(&bytes).unwrap(), expected);

    let mut unaligned = vec![0xFF];
    unaligned.extend_from_slice(&bytes);
    assert_eq!(SidBuf::from_bytes(&unaligned[1..]).unwrap(), expected);
}

#[test]
fn from_bytes_validates_the_complete_structure() {
    let no_sub_authorities = [SID_REVISION, 0, 0, 0, 0, 0, 0, 5];
    assert_eq!(
        SidBuf::from_bytes(&no_sub_authorities)
            .unwrap()
            .sub_authorities(),
        &[]
    );

    let mut too_many_sub_authorities = vec![0; SID_HEADER_BYTES + 16 * size_of::<u32>()];
    too_many_sub_authorities[0] = SID_REVISION;
    too_many_sub_authorities[1] = SID_MAX_SUB_AUTHORITIES + 1;

    for bytes in [
        &[][..],
        &[0, 0, 0, 0, 0, 0, 0, 0],
        &[SID_REVISION, 1, 0, 0, 0, 0, 0, 5],
        &[SID_REVISION, 0, 0, 0, 0, 0, 0, 5, 0, 0, 0, 0],
        &too_many_sub_authorities,
    ] {
        assert_eq!(SidBuf::from_bytes(bytes).unwrap_err(), Error::InvalidSid);
    }
}

#[test]
fn rid_returns_the_final_sub_authority() {
    assert_eq!(nt_sid(&[21, 1, 2, 3, 1000]).rid(), Some(1000));
    assert_eq!(SidBuf::new(5, &[]).unwrap().rid(), None);
}

#[test]
fn new_accepts_every_authority_form() {
    let from_const = SidBuf::new(SECURITY_NT_AUTHORITY, &[18]).unwrap();
    let from_array = SidBuf::new([0, 0, 0, 0, 0, 5], &[18]).unwrap();
    let from_literal = SidBuf::new(5, &[18]).unwrap();
    let from_u8 = SidBuf::new(5u8, &[18]).unwrap();
    let from_u64 = SidBuf::new(5u64, &[18]).unwrap();
    let from_usize = SidBuf::new(5usize, &[18]).unwrap();
    let from_i128 = SidBuf::new(5i128, &[18]).unwrap();

    for sid in [
        from_array,
        from_literal,
        from_u8,
        from_u64,
        from_usize,
        from_i128,
    ] {
        assert_eq!(sid, from_const);
    }
}

#[test]
fn new_enforces_the_authority_range() {
    assert_eq!(
        SidBuf::new(MAX_AUTHORITY, &[]).unwrap().authority(),
        MAX_AUTHORITY
    );

    for result in [
        SidBuf::new(-1, &[]),
        SidBuf::new(1u64 << 48, &[]),
        SidBuf::new(u128::MAX, &[]),
        SidBuf::new(i64::MIN, &[]),
    ] {
        assert_eq!(result.unwrap_err(), Error::AuthorityOutOfRange);
    }
}

#[test]
fn authority_getters_round_trip_through_new() {
    let sid = nt_sid(&[32, 544]);
    assert_eq!(sid.authority(), 5);
    assert_eq!(sid.authority_bytes(), SECURITY_NT_AUTHORITY);
    assert_eq!(
        SidBuf::new(sid.authority(), sid.sub_authorities()).unwrap(),
        sid
    );

    let large = SidBuf::new(1u64 << 32, &[1]).unwrap();
    assert_eq!(large.authority_bytes(), [0, 1, 0, 0, 0, 0]);
    assert_eq!(
        SidBuf::new(large.authority_bytes(), large.sub_authorities()).unwrap(),
        large
    );
}

#[test]
fn errors_map_to_win32_codes() {
    assert_eq!(Error::TooManySubAuthorities.win32_code(), ERROR_INVALID_SID);
    assert_eq!(Error::AuthorityOutOfRange.win32_code(), ERROR_INVALID_SID);
    assert_eq!(Error::InvalidSid.win32_code(), ERROR_INVALID_SID);
    assert_eq!(Error::Windows(5).win32_code(), 5);

    let io_error: std::io::Error = Error::Windows(5).into();
    assert_eq!(io_error.raw_os_error(), Some(5));

    assert_eq!(Error::from(SidParseError::invalid()), Error::InvalidSid);

    for error in [Error::TooManySubAuthorities, Error::Windows(5)] {
        assert!(!error.to_string().is_empty());
    }
}

#[test]
fn new_builds_the_expected_sid() {
    let sid = nt_sid(&[32, 544]);

    assert_eq!(
        sid.as_bytes(),
        &[
            0x01, // revision
            0x02, // sub-authority count
            0x00, 0x00, 0x00, 0x00, 0x00, 0x05, // authority, big-endian
            0x20, 0x00, 0x00, 0x00, // sub-authority #1, little-endian
            0x20, 0x02, 0x00, 0x00, // sub-authority #2, little-endian
        ]
    );
    assert_eq!(sid.revision(), SID_REVISION);
    assert_eq!(sid.sub_authority_count(), 2);
    assert_eq!(sid.authority(), 5);
    assert_eq!(sid.sub_authority(0), Some(32));
    assert_eq!(sid.sub_authority(1), Some(544));
    assert_eq!(sid.sub_authority(2), None);
    assert_eq!(sid.sub_authorities(), [32, 544]);
}

#[test]
fn owned_and_borrowed_views_agree() {
    let owned = nt_sid(&[18]);
    let via_deref: &Sid = &owned;
    let via_borrow: &Sid = owned.borrow();
    let via_as_ref: &Sid = owned.as_ref();

    assert_eq!(via_deref, via_borrow);
    assert_eq!(via_deref, via_as_ref);
    assert_eq!(via_deref.to_owned(), owned);
    assert_eq!(*via_deref, owned);
    assert_eq!(owned, *via_deref);
    assert_eq!(via_deref, owned);
    assert_eq!(owned, via_deref);

    let different = nt_sid(&[19]);
    assert_ne!(via_deref, different);
    assert_ne!(different, via_deref);
}

#[test]
fn display_and_debug_render_canonical_strings() {
    let cases = [
        (SidBuf::default(), "S-1-0-0"),
        (nt_sid(&[18]), "S-1-5-18"),
        (nt_sid(&[32, 544]), "S-1-5-32-544"),
        (
            SidBuf::new([0, 0, 0xFF, 0xFF, 0xFF, 0xFF], &[1]).unwrap(),
            "S-1-4294967295-1",
        ),
        (
            SidBuf::new([0, 1, 0, 0, 0, 0], &[1, 2]).unwrap(),
            "S-1-0x000100000000-1-2",
        ),
    ];

    for (sid, expected) in cases {
        assert_eq!(sid.to_string(), expected);
        assert_eq!(sid.debug_string(), format!("{expected:?}"));
        assert_eq!((&*sid).debug_string(), format!("{expected:?}"));
    }
}

#[test]
fn from_str_parses_and_round_trips_display() {
    for s in [
        "S-1-0-0",
        "S-1-5-18",
        "S-1-5-32-544",
        "S-1-0x000100000000-1-2",
    ] {
        let sid: SidBuf = s.parse().unwrap();
        assert_eq!(sid.to_string(), s);
    }

    assert_eq!(
        "s-1-4294967296-1".parse::<SidBuf>().unwrap(),
        "S-1-0x000100000000-1".parse::<SidBuf>().unwrap(),
    );

    assert_eq!(
        "S-1-5".parse::<SidBuf>().unwrap().sub_authorities(),
        &[] as &[u32]
    );
}

#[test]
fn from_str_rejects_malformed_input() {
    for s in [
        "",
        "X-1-5-18",
        "S-2-5-18",
        "S-1",
        "S-1-5-",
        "S-1-+5-18",
        "S-1-0x+5-18",
        "S-1-5-+18",
        "S-1-5-4294967296",
        "S-1-0x1000000000000-1",
        "S-1-5-1-2-3-4-5-6-7-8-9-10-11-12-13-14-15-16",
    ] {
        assert!(s.parse::<SidBuf>().is_err(), "parsing should reject {s:?}");
    }
}

#[test]
fn equality_and_ordering_follow_sid_fields_numerically() {
    let a = nt_sid(&[18]);
    let b = nt_sid(&[18]);
    let c = nt_sid(&[19]);
    assert_eq!(a, b);
    assert_ne!(a, c);

    assert!(a < nt_sid(&[32, 544]));
    assert!(nt_sid(&[1]) < nt_sid(&[256]));
    assert!(nt_sid(&[21, 1]) < nt_sid(&[21, 1, 1]));

    let lower_authority = SidBuf::new(4, &[u32::MAX, u32::MAX]).unwrap();
    let higher_authority = SidBuf::new(5, &[0]).unwrap();
    assert!(lower_authority < higher_authority);
}

#[test]
fn equal_prefix_ignores_only_the_last_sub_authority() {
    let first = nt_sid(&[21, 1, 2, 3, 1000]);
    let same_prefix = nt_sid(&[21, 1, 2, 3, 2000]);
    let different_prefix = nt_sid(&[21, 1, 2, 4, 1000]);
    let different_count = nt_sid(&[21, 1, 2, 3]);
    let different_authority = SidBuf::new([0, 0, 0, 0, 0, 4], &[21, 1, 2, 3, 2000]).unwrap();

    assert!(first.equal_prefix(&same_prefix));
    assert!(!first.equal_prefix(&different_prefix));
    assert!(!first.equal_prefix(&different_count));
    assert!(!first.equal_prefix(&different_authority));

    let no_sub_authorities = SidBuf::new(SECURITY_NT_AUTHORITY, &[]).unwrap();
    assert!(no_sub_authorities.equal_prefix(&no_sub_authorities));
}

#[test]
fn borrowed_sid_looks_up_owned_key() {
    let mut map = HashMap::new();
    map.insert(nt_sid(&[18]), "LocalSystem");

    let key = nt_sid(&[18]);
    let probe: &Sid = &key;
    assert_eq!(map.get(probe), Some(&"LocalSystem"));
}

#[test]
fn default_is_the_null_sid() {
    let null_sid = SidBuf::default();
    assert_eq!(null_sid.authority_bytes(), SECURITY_NULL_SID_AUTHORITY);
    assert_eq!(null_sid.sub_authorities(), [0]);
    assert_eq!(null_sid.as_bytes(), [1, 1, 0, 0, 0, 0, 0, 0, 0, 0, 0, 0]);
}

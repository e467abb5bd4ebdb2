use std::cmp::Ordering;

use safe_sid::authority::{SECURITY_NT_AUTHORITY, MAX_AUTHORITY};
use safe_sid::well_known::{
    WinAccountDomainAdminsSid, WinBuiltinAdministratorsSid, WinBuiltinOpenSSHUsersSid,
    WinHighLabelSid, WinLocalSystemSid, WinNullSid, WinWorldSid,
};
use safe_sid::{
    check_string_sid, sid_word_len, AsWellKnownSidType, Error, SidBuf, SidParseError,
    SidParseErrorKind, ERROR_INSUFFICIENT_BUFFER,
};

fn nt_sid(sub_authorities: &[u32]) -> SidBuf {
    SidBuf::new(SECURITY_NT_AUTHORITY, sub_authorities).unwrap()
}

fn samples() -> Vec<SidBuf> {
    vec![
        SidBuf::default(),
        nt_sid(&[]),
        nt_sid(&[18]),
        nt_sid(&[32, 544]),
        nt_sid(&[21, 1, 2, 3, 1000]),
        SidBuf::new(MAX_AUTHORITY, &[u32::MAX; 15]).unwrap(),
        SidBuf::new(0xFFFF_FFFFu64, &[0, 1]).unwrap(),
        SidBuf::new(0x1_0000_0000u64, &[7]).unwrap(),
        SidBuf::new(0xABCD_EF01_2345u64, &[]).unwrap(),
    ]
}

#[test]
fn to_string_then_parse_gives_the_same_sid() {
    for sid in samples() {
        let text = sid.to_string();
        assert_eq!(SidBuf::parse(&text).unwrap(), sid, "{text}");
    }
}

#[test]
fn hexadecimal_authorities_use_twelve_uppercase_digits() {
    let sid = SidBuf::new(0xABCD_EF01_2345u64, &[9]).unwrap();
    assert_eq!(sid.to_string(), "S-1-0xABCDEF012345-9");
    assert_eq!(
        SidBuf::new(MAX_AUTHORITY, &[]).unwrap().to_string(),
        "S-1-0xFFFFFFFFFFFF"
    );
    assert_eq!(
        SidBuf::new(0xFFFF_FFFFu64, &[]).unwrap().to_string(),
        "S-1-4294967295"
    );
}

#[test]
fn parsing_accepts_equivalent_spellings() {
    let expected = nt_sid(&[32, 544]);
    for s in [
        "S-1-5-32-544",
        "s-1-5-32-544",
        "S-1-0005-0032-00544",
        "S-1-0x5-32-544",
        "S-1-0X05-32-544",
        "S-1-0xa-1",
    ] {
        let parsed = SidBuf::parse(s).unwrap();
        if s == "S-1-0xa-1" {
            assert_eq!(parsed, SidBuf::new(10, &[1]).unwrap());
        } else {
            assert_eq!(parsed, expected, "{s}");
        }
    }
    assert_eq!(
        SidBuf::parse("S-1-0xffffffffffff-4294967295").unwrap(),
        SidBuf::new(MAX_AUTHORITY, &[u32::MAX]).unwrap()
    );
}

#[test]
fn parsing_rejects_other_forms() {
    for s in [
        "S-01-5",
        "S-1-0x",
        "S-1-0xG",
        "S-1- 5",
        "S-1-5 ",
        "S-1--5",
        "S-1-5--1",
        "SS-1-5",
        "S-1-5-١",
        "S-1-281474976710656",
        "S-1-5-1-2-3-4-5-6-7-8-9-10-11-12-13-14-15-16-17",
    ] {
        let error = SidBuf::parse(s).unwrap_err();
        assert_eq!(error.error_kind(), SidParseErrorKind::Invalid, "{s}");
        assert_eq!(error.to_string(), "invalid SID string");
    }
    assert!(SidBuf::parse("S-1-5-1-2-3-4-5-6-7-8-9-10-11-12-13-14-15").is_ok());
}

#[test]
fn bytes_round_trip() {
    for sid in samples() {
        let bytes = sid.as_bytes();
        assert_eq!(bytes.len(), 8 + 4 * sid.sub_authorities().len());
        assert_eq!(SidBuf::from_bytes(&bytes).unwrap(), sid);
        assert_eq!(SidBuf::from_bytes(&bytes).unwrap().as_bytes(), bytes);
    }
}

#[test]
fn from_bytes_reads_little_endian_sub_authorities() {
    let bytes = [1, 1, 0, 0, 0, 0, 0, 5, 0x78, 0x56, 0x34, 0x12];
    let sid = SidBuf::from_bytes(&bytes).unwrap();
    assert_eq!(sid.sub_authorities(), [0x1234_5678]);
    assert_eq!(SidBuf::from_bytes(&bytes[..11]).unwrap_err(), Error::InvalidSid);
    let mut longer = bytes.to_vec();
    longer.push(0);
    assert_eq!(SidBuf::from_bytes(&longer).unwrap_err(), Error::InvalidSid);
}

#[test]
fn words_pack_the_bytes_little_endian() {
    let sid = nt_sid(&[32, 544]);
    assert_eq!(sid.words(), [0x0000_0201, 0x0500_0000, 32, 544]);
    for sid in samples() {
        let words = sid.words();
        assert_eq!(words.len(), 2 + sid.sub_authorities().len());
        assert_eq!(SidBuf::from_words(&words).unwrap(), sid);
    }
}

#[test]
fn from_words_ignores_spare_words_and_checks_the_header() {
    let sid = nt_sid(&[21, 1000]);
    let mut words = sid.words();
    words.push(0xDEAD_BEEF);
    assert_eq!(SidBuf::from_words(&words).unwrap(), sid);

    assert_eq!(SidBuf::from_words(&words[..3]).unwrap_err(), Error::InvalidSid);
    assert_eq!(SidBuf::from_words(&[0x0000_0201]).unwrap_err(), Error::InvalidSid);
    assert_eq!(SidBuf::from_words(&[0x0000_0002, 0]).unwrap_err(), Error::InvalidSid);
    assert_eq!(
        SidBuf::from_words(&[0x0000_1001, 0, 0, 0, 0, 0, 0, 0, 0, 0, 0, 0, 0, 0, 0, 0, 0, 0])
            .unwrap_err(),
        Error::InvalidSid
    );
}

#[test]
fn header_check_gives_the_word_length() {
    assert_eq!(sid_word_len(1, 0), Ok(2));
    assert_eq!(sid_word_len(1, 15), Ok(17));
    assert_eq!(sid_word_len(1, 16), Err(Error::InvalidSid));
    assert_eq!(sid_word_len(0, 0), Err(Error::InvalidSid));
    assert_eq!(sid_word_len(2, 1), Err(Error::InvalidSid));
}

#[test]
fn size_query_outcomes() {
    assert_eq!(Error::check_size_query(None), Ok(()));
    assert_eq!(Error::check_size_query(Some(ERROR_INSUFFICIENT_BUFFER)), Ok(()));
    assert_eq!(Error::check_size_query(Some(87)), Err(Error::Windows(87)));
}

#[test]
fn string_sid_input_must_not_hold_nul() {
    assert_eq!(check_string_sid("BA"), Ok(()));
    assert_eq!(check_string_sid(""), Ok(()));
    assert_eq!(
        check_string_sid("BA\0").unwrap_err().error_kind(),
        SidParseErrorKind::InteriorNul
    );
    assert_eq!(
        check_string_sid("\0S-1-5").unwrap_err(),
        SidParseError::interior_nul()
    );
}

#[test]
fn parse_error_kinds_and_messages() {
    assert_eq!(SidParseError::windows(1337).error_kind(), SidParseErrorKind::Windows(1337));
    assert_eq!(
        SidParseError::interior_nul().to_string(),
        "SID string contains an interior NUL byte"
    );
    assert!(SidParseError::windows(1337)
        .to_string()
        .starts_with("invalid SID string: "));
    assert_eq!(Error::from(SidParseError::windows(5)), Error::InvalidSid);
}

#[test]
fn error_messages() {
    assert_eq!(
        Error::TooManySubAuthorities.to_string(),
        "a SID holds at most 15 sub-authorities"
    );
    assert_eq!(
        Error::AuthorityOutOfRange.to_string(),
        "the identifier authority does not fit in 48 bits"
    );
    assert_eq!(Error::InvalidSid.to_string(), "not a valid SID");
    assert_eq!(Error::Windows(0x1234).win32_code(), 0x1234);
}

#[test]
fn ordering_is_total_and_agrees_with_equality() {
    let all = samples();
    for a in &all {
        for b in &all {
            let ab = a.partial_cmp(b).unwrap();
            let ba = b.partial_cmp(a).unwrap();
            assert_eq!(ab, ba.reverse());
            assert_eq!(ab == Ordering::Equal, a == b);
            for c in &all {
                if a < b && b < c {
                    assert!(a < c);
                }
            }
        }
    }
    assert!(SidBuf::new(4, &[u32::MAX]).unwrap() < SidBuf::new(5, &[]).unwrap());
    assert!(nt_sid(&[5]) > nt_sid(&[4, 9]));
    assert!(nt_sid(&[]) < nt_sid(&[0]));
}

#[test]
fn equal_prefix_is_symmetric_and_reflexive() {
    let a = nt_sid(&[21, 7, 100]);
    let b = nt_sid(&[21, 7, 200]);
    let c = nt_sid(&[21, 8, 100]);
    assert!(a.equal_prefix(&a));
    assert!(a.equal_prefix(&b) && b.equal_prefix(&a));
    assert!(!a.equal_prefix(&c) && !c.equal_prefix(&a));
    assert!(nt_sid(&[1]).equal_prefix(&nt_sid(&[2])));
}

#[test]
fn new_round_trips_through_the_getters() {
    for sid in samples() {
        assert_eq!(SidBuf::new(sid.authority(), sid.sub_authorities()).unwrap(), sid);
        assert_eq!(SidBuf::new(sid.authority_bytes(), sid.sub_authorities()).unwrap(), sid);
        assert_eq!(sid.clone(), sid);
        assert_eq!(sid.to_owned(), sid);
        assert_eq!(sid.sub_authority_count() as usize, sid.sub_authorities().len());
        assert_eq!(sid.revision(), 1);
    }
}

#[test]
fn authority_errors_take_precedence_over_count_errors() {
    assert_eq!(
        SidBuf::new(1u64 << 48, &[0; 16]).unwrap_err(),
        Error::AuthorityOutOfRange
    );
    assert_eq!(SidBuf::new(-5i8, &[]).unwrap_err(), Error::AuthorityOutOfRange);
    assert_eq!(SidBuf::new(u16::MAX, &[]).unwrap().authority(), 0xFFFF);
    assert_eq!(
        SidBuf::new(0x0102_0304_0506u64, &[]).unwrap().authority_bytes(),
        [1, 2, 3, 4, 5, 6]
    );
}

#[test]
fn well_known_types_carry_the_windows_values() {
    assert_eq!(WinNullSid.win32_value(), 0);
    assert_eq!(WinWorldSid.win32_value(), 1);
    assert_eq!(WinLocalSystemSid.win32_value(), 22);
    assert_eq!(WinBuiltinAdministratorsSid.win32_value(), 26);
    assert_eq!(WinLocalSystemSid.as_well_known_sid_type(), WinLocalSystemSid);
    assert_eq!(WinAccountDomainAdminsSid.win32_value(), 41);
    assert_eq!(WinHighLabelSid.win32_value(), 68);
    assert_eq!(WinBuiltinOpenSSHUsersSid.win32_value(), 121);
}

#[test]
fn failed_calls_carry_the_win32_code() {
    assert_eq!(Error::check_call(None), Ok(()));
    assert_eq!(Error::check_call(Some(5)), Err(Error::Windows(5)));
    assert_eq!(
        Error::check_call(Some(ERROR_INSUFFICIENT_BUFFER)),
        Err(Error::Windows(ERROR_INSUFFICIENT_BUFFER))
    );
    assert_eq!(SidParseError::check_call(None), Ok(()));
    assert_eq!(
        SidParseError::check_call(Some(1337)).unwrap_err().error_kind(),
        SidParseErrorKind::Windows(1337)
    );
}

#[test]
fn result_alias_holds_the_library_error() {
    let r: safe_sid::Result<SidBuf> = SidBuf::new(5, &[0; 16]);
    assert_eq!(r.unwrap_err(), Error::TooManySubAuthorities);
}

#[test]
fn io_errors_carry_the_win32_code() {
    for (error, code) in [
        (Error::Windows(5), 5),
        (Error::Windows(0x1234), 0x1234),
        (Error::InvalidSid, 0x0539),
        (Error::TooManySubAuthorities, 0x0539),
        (Error::AuthorityOutOfRange, 0x0539),
    ] {
        let io_error: std::io::Error = error.into();
        assert_eq!(io_error.raw_os_error(), Some(code));
    }
}

use forensic_rs::err::ForensicError;
use forensic_rs::utils::win::sid::{
    to_string_sid, BUILTIN_ADMINS_SID_BIN, BUILTIN_ADMINS_SID_STR, BUILTIN_GUESTS_SID_BIN,
    BUILTIN_GUESTS_SID_STR, BUILTIN_USERS_SID_BIN, BUILTIN_USERS_SID_STR, LOCAL_SYSTEM_SID_BIN,
    LOCAL_SYSTEM_SID_STR,
};

#[test]
fn sid_should_generate_valid_sids() {
    // https://devblogs.microsoft.com/oldnewthing/20040315-00/?p=40253
    assert_eq!(
        "S-1-5-21-2127521184-1604012920-1887927527-72713",
        to_string_sid(&[
            0x01, 0x05, 0x00, 0x00, 0x00, 0x00, 0x00, 0x05, 0x15, 0x00, 0x00, 0x00, 0xA0, 0x65,
            0xCF, 0x7E, 0x78, 0x4B, 0x9B, 0x5F, 0xE7, 0x7C, 0x87, 0x70, 0x09, 0x1C, 0x01, 0x00
        ])
        .unwrap()
    );
    assert_eq!(BUILTIN_ADMINS_SID_STR, to_string_sid(&BUILTIN_ADMINS_SID_BIN).unwrap());
    assert_eq!(BUILTIN_USERS_SID_STR, to_string_sid(&BUILTIN_USERS_SID_BIN).unwrap());
    assert_eq!(BUILTIN_GUESTS_SID_STR, to_string_sid(&BUILTIN_GUESTS_SID_BIN).unwrap());
    assert_eq!(LOCAL_SYSTEM_SID_STR, to_string_sid(&LOCAL_SYSTEM_SID_BIN).unwrap());
    assert_eq!(
        "S-1-5-21-1366093794-4292800403-1155380978-513",
        to_string_sid(&[
            0x01, 0x05, 0x00, 0x00, 0x00, 0x00, 0x00, 0x05, 0x15, 0x00, 0x00, 0x00, 0xe2, 0xef,
            0x6c, 0x51, 0x93, 0xef, 0xde, 0xff, 0xf2, 0xb6, 0xdd, 0x44, 0x01, 0x02, 0x00, 0x00
        ])
        .unwrap()
    );
}

#[test]
fn win_should_generate_valid_sids() {
    // https://devblogs.microsoft.com/oldnewthing/20040315-00/?p=40253
    assert_eq!(
        "S-1-5-21-2127521184-1604012920-1887927527-72713",
        forensic_rs::utils::win::to_string_sid(&[
            0x01, 0x05, 0x00, 0x00, 0x00, 0x00, 0x00, 0x05, 0x15, 0x00, 0x00, 0x00, 0xA0, 0x65,
            0xCF, 0x7E, 0x78, 0x4B, 0x9B, 0x5F, 0xE7, 0x7C, 0x87, 0x70, 0x09, 0x1C, 0x01, 0x00
        ])
        .unwrap()
    );
    assert_eq!(BUILTIN_ADMINS_SID_STR, forensic_rs::utils::win::to_string_sid(&BUILTIN_ADMINS_SID_BIN).unwrap());
    assert_eq!(BUILTIN_USERS_SID_STR, forensic_rs::utils::win::to_string_sid(&BUILTIN_USERS_SID_BIN).unwrap());
    assert_eq!(BUILTIN_GUESTS_SID_STR, forensic_rs::utils::win::to_string_sid(&BUILTIN_GUESTS_SID_BIN).unwrap());
    assert_eq!(LOCAL_SYSTEM_SID_STR, forensic_rs::utils::win::to_string_sid(&LOCAL_SYSTEM_SID_BIN).unwrap());
    assert_eq!(
        "S-1-5-21-1366093794-4292800403-1155380978-513",
        forensic_rs::utils::win::to_string_sid(&[
            0x01, 0x05, 0x00, 0x00, 0x00, 0x00, 0x00, 0x05, 0x15, 0x00, 0x00, 0x00, 0xe2, 0xef,
            0x6c, 0x51, 0x93, 0xef, 0xde, 0xff, 0xf2, 0xb6, 0xdd, 0x44, 0x01, 0x02, 0x00, 0x00
        ])
        .unwrap()
    );
}

#[test]
fn a_sid_of_fewer_than_eight_bytes_is_rejected() {
    let expected = ForensicError::bad_format_str("SID must have at least 8 bytes");
    assert_eq!(to_string_sid(&[]), Err(expected.clone()));
    assert_eq!(to_string_sid(&[1, 1, 0, 0, 0, 0, 0]), Err(expected));
    assert_eq!(
        to_string_sid(&[1, 1, 0, 0, 0]).unwrap_err().to_string(),
        "The data have an unexpected format: SID must have at least 8 bytes"
    );
}

#[test]
fn subauthorities_that_are_cut_off_are_left_out() {
    // Two subauthorities are announced; the second is one byte short.
    assert_eq!(
        "S-1-5-32",
        to_string_sid(&[1, 2, 0, 0, 0, 0, 0, 5, 0x20, 0, 0, 0, 0x20, 2, 0]).unwrap()
    );
    // None is announced: what follows is not read.
    assert_eq!("S-1-5", to_string_sid(&[1, 0, 0, 0, 0, 0, 0, 5, 0x20, 0, 0, 0]).unwrap());
    // No subauthority is there at all.
    assert_eq!("S-1-5", to_string_sid(&[1, 9, 0, 0, 0, 0, 0, 5]).unwrap());
}

#[test]
fn the_identifier_authority_has_six_bytes() {
    assert_eq!(
        "S-255-281474976710655-4294967295",
        to_string_sid(&[255, 1, 255, 255, 255, 255, 255, 255, 255, 255, 255, 255]).unwrap()
    );
    assert_eq!("S-0-1099511627776", to_string_sid(&[0, 0, 1, 0, 0, 0, 0, 0]).unwrap());
}

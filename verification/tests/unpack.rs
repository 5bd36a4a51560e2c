use forensic_rs::err::ForensicError;
use forensic_rs::utils::unpack::{
    u16_at_pos, u16_at_pos_safe, u16b_at_pos, u16b_at_pos_safe, u32_at_pos, u32_at_pos_safe,
    u32b_at_pos, u32b_at_pos_safe, u64_at_pos, u64_at_pos_safe, u64b_at_pos, u64b_at_pos_safe,
};

const BUFFER: [u8; 10] = [0x00, 0x01, 0x02, 0x03, 0x04, 0x05, 0x06, 0x07, 0x08, 0xff];

#[test]
fn little_endian_numbers() {
    assert_eq!(u16_at_pos(&BUFFER, 1), 0x0201);
    assert_eq!(u32_at_pos(&BUFFER, 1), 0x0403_0201);
    assert_eq!(u64_at_pos(&BUFFER, 1), 0x0807_0605_0403_0201);
    assert_eq!(u64_at_pos(&BUFFER, 2), 0xff08_0706_0504_0302);
    assert_eq!(u16_at_pos(&BUFFER, 8), 0xff08);
}

#[test]
fn big_endian_numbers() {
    assert_eq!(u16b_at_pos(&BUFFER, 1), 0x0102);
    assert_eq!(u32b_at_pos(&BUFFER, 1), 0x0102_0304);
    assert_eq!(u64b_at_pos(&BUFFER, 1), 0x0102_0304_0506_0708);
    assert_eq!(u64b_at_pos(&BUFFER, 2), 0x0203_0405_0607_08ff);
    assert_eq!(u16b_at_pos(&BUFFER, 8), 0x08ff);
}

#[test]
fn safe_reads_agree_with_the_others_in_range() {
    assert_eq!(u16_at_pos_safe(&BUFFER, 8), Ok(0xff08));
    assert_eq!(u32_at_pos_safe(&BUFFER, 6), Ok(0xff08_0706));
    assert_eq!(u64_at_pos_safe(&BUFFER, 2), Ok(0xff08_0706_0504_0302));
    assert_eq!(u16b_at_pos_safe(&BUFFER, 8), Ok(0x08ff));
    assert_eq!(u32b_at_pos_safe(&BUFFER, 6), Ok(0x0607_08ff));
    assert_eq!(u64b_at_pos_safe(&BUFFER, 2), Ok(0x0203_0405_0607_08ff));
}

#[test]
fn safe_reads_reject_what_does_not_fit() {
    let u16_error = ForensicError::bad_format_str("Buffer does not have enough space for u16");
    let u32_error = ForensicError::bad_format_str("Buffer does not have enough space for u32");
    let u64_error = ForensicError::bad_format_str("Buffer does not have enough space for u64");
    assert_eq!(u16_at_pos_safe(&BUFFER, 9), Err(u16_error.clone()));
    assert_eq!(u16b_at_pos_safe(&BUFFER, 10), Err(u16_error.clone()));
    assert_eq!(u16_at_pos_safe(&[], 0), Err(u16_error.clone()));
    assert_eq!(u16_at_pos_safe(&BUFFER, usize::MAX), Err(u16_error));
    assert_eq!(u32_at_pos_safe(&BUFFER, 7), Err(u32_error.clone()));
    assert_eq!(u32b_at_pos_safe(&BUFFER, usize::MAX - 1), Err(u32_error));
    assert_eq!(u64_at_pos_safe(&BUFFER, 3), Err(u64_error.clone()));
    assert_eq!(u64b_at_pos_safe(&BUFFER, 3), Err(u64_error));
}

#[test]
fn a_component_is_cut_into_clean_segments() {
    use_normalize("C:\\Windows\\System32", &["C", "Windows", "System32"]);
    use_normalize("Windows:\\System32", &["Windows", "System32"]);
    use_normalize("a/b\\c", &["a", "b", "c"]);
    use_normalize("\\\\server\\\\share\\", &["server", "share"]);
    use_normalize("a/ /\t/b", &["a", "b"]);
    use_normalize(" a :b ", &[" a b "]);
    use_normalize(":", &[""]);
    use_normalize("", &[]);
    use_normalize("///", &[]);
    use_normalize("plain", &["plain"]);
    use_normalize("a\u{2003}/\u{2003}", &["a\u{2003}"]);
}

fn use_normalize(component: &str, expected: &[&str]) {
    let expected: Vec<String> = expected.iter().map(|s| s.to_string()).collect();
    assert_eq!(forensic_rs::fs::normalize_prefix(component), expected, "{:?}", component);
}

#[test]
fn both_slashes_separate_segments() {
    assert!(forensic_rs::fs::split_path('/'));
    assert!(forensic_rs::fs::split_path('\\'));
    assert!(!forensic_rs::fs::split_path(':'));
    assert!(!forensic_rs::fs::split_path(' '));
}

#[test]
fn addresses_are_packed_from_the_low_bytes_of_their_parts() {
    use_ipv4([192, 168, 1, 1], 0xc0a8_0101, "192.168.1.1");
    use_ipv4([0, 0, 0, 111], 111, "0.0.0.111");
    use_ipv4([255, 255, 255, 255], u32::MAX, "255.255.255.255");
    use_ipv4([0x1_01, 0x2_02, 0x3_03, 0xffff_ff04], 0x0102_0304, "1.2.3.4");
    use_ipv4([0, 0, 0, 0], 0, "0.0.0.0");
    assert_eq!(forensic_rs::utils::ip::ipv6_from_parts([0; 16]), 0);
    assert_eq!(
        forensic_rs::utils::ip::ipv6_from_parts([0, 0, 0, 0, 0, 0, 0, 0, 0, 0, 0, 0, 0, 0, 0, 1]),
        1
    );
    assert_eq!(
        forensic_rs::utils::ip::ipv6_from_parts([
            0x20, 0x01, 0x0d, 0xb8, 0, 0, 0, 0, 0, 0, 0, 0, 0, 0, 0x1_00, 0x3_ff
        ]),
        0x2001_0db8_0000_0000_0000_0000_0000_00ff
    );
    assert_eq!(forensic_rs::utils::ip::ipv6_from_parts([u32::MAX; 16]), u128::MAX);
}

fn use_ipv4(parts: [u32; 4], ip: u32, text: &str) {
    assert_eq!(forensic_rs::utils::ip::ipv4_from_parts(parts), ip);
    assert_eq!(forensic_rs::utils::ip::ipv4_to_str(ip), text);
}

use forensic_rs::field::Ip;
use forensic_rs::utils::ip::{ipv6_to_str, is_local_ipv4, is_local_ipv6};

#[test]
fn test_equals_between_ips() {
    assert_eq!(Ip::V4(111), Ip::V4(111));
    assert_eq!(Ip::V6(111), Ip::V6(111));
    assert_eq!(Some(Ip::V6(111)), Some(Ip::V6(111)));
}

#[test]
fn test_serialize_ip_field() {
    assert_eq!(Ip::V4(111).to_string(), "0.0.0.111");
}

#[test]
fn from_u32_vec() {
    let ip: Ip = [192, 168, 1, 1].into();
    assert_eq!(ip.to_string(), "192.168.1.1");
}

#[test]
fn from_u128_vec() {
    let ip: Ip = [0, 0, 0, 0, 0, 0, 0, 0, 0, 0, 0, 0, 0, 0, 0, 1].into();
    assert_eq!(ip.to_string(), "::1");
}

#[test]
fn addresses_of_different_versions_differ() {
    assert_ne!(Ip::V4(1), Ip::V6(1));
    assert_ne!(Ip::V4(1), Ip::V4(2));
    assert_eq!(Ip::from(7u32), Ip::V4(7));
    assert_eq!(Ip::from(&7u32), Ip::V4(7));
    assert_eq!(Ip::from(7u128), Ip::V6(7));
    assert_eq!(Ip::from(&7u128), Ip::V6(7));
}

#[test]
fn addresses_of_version_6_leave_out_the_first_longest_run_of_zeros() {
    assert_eq!(ipv6_to_str(0), "::");
    assert_eq!(ipv6_to_str(1), "::1");
    assert_eq!(ipv6_to_str(0x2001_0db8_0000_0000_0000_0000_0000_0001), "2001:db8::1");
    assert_eq!(ipv6_to_str(0x2001_0db8_0000_0001_0000_0000_0000_0001), "2001:db8:0:1::1");
    // Of two runs of one length the first is left out.
    assert_eq!(ipv6_to_str(0x2001_0000_0000_0001_0000_0000_0001_0001), "2001::1:0:0:1:1");
    // A single zero group is written.
    assert_eq!(ipv6_to_str(0x2001_0db8_0000_0001_0001_0001_0001_0001), "2001:db8:0:1:1:1:1:1");
    assert_eq!(ipv6_to_str(0xfe80_0000_0000_0000_0202_b3ff_fe1e_8329), "fe80::202:b3ff:fe1e:8329");
    assert_eq!(ipv6_to_str(0x0001_0000_0000_0000_0000_0000_0000_0000), "1::");
    assert_eq!(ipv6_to_str(0x0001_0002_0003_0004_0005_0006_0000_0000), "1:2:3:4:5:6::");
    assert_eq!(ipv6_to_str(0x0000_0000_0003_0004_0005_0006_0007_0008), "::3:4:5:6:7:8");
    assert_eq!(ipv6_to_str(u128::MAX), "ffff:ffff:ffff:ffff:ffff:ffff:ffff:ffff");
    assert_eq!(ipv6_to_str(0x0000_0000_0000_0000_0000_ffff_c0a8_0101), "::ffff:c0a8:101");
    assert_eq!(Ip::V6(0xabcd_ef01_2345_6789_0abc_00de_000f_0000).to_string(), "abcd:ef01:2345:6789:abc:de:f:0");
}

#[test]
fn local_addresses() {
    for (ip, local) in [
        (0x0a00_0000u32, true),
        (0x0aff_ffff, true),
        (0x09ff_ffff, false),
        (0x0b00_0000, false),
        (0xac10_0000, true),
        (0xac1f_ffff, true),
        (0xac20_0000, false),
        (0xc0a8_0101, true),
        (0xc0a9_0000, false),
        (0x7f00_0001, true),
        (0xa9fe_0101, true),
        (0x0808_0808, false),
        (0, false),
        (u32::MAX, false),
    ] {
        assert_eq!(is_local_ipv4(ip), local, "{:#x}", ip);
        assert_eq!(Ip::V4(ip).is_local(), local);
    }
    for (ip, local) in [
        (1u128, true),
        (0, false),
        (2, false),
        (0xfc00_0000_0000_0000_0000_0000_0000_0000, true),
        (0xfdff_ffff_ffff_ffff_ffff_ffff_ffff_ffff, true),
        (0xfe00_0000_0000_0000_0000_0000_0000_0000, false),
        (0xfe80_0000_0000_0000_0000_0000_0000_0001, true),
        (0xfec0_0000_0000_0000_0000_0000_0000_0000, false),
        (0x2001_0db8_0000_0000_0000_0000_0000_0001, false),
    ] {
        assert_eq!(is_local_ipv6(ip), local, "{:#x}", ip);
        assert_eq!(Ip::V6(ip).is_local(), local);
    }
}

#[test]
fn addresses_of_version_4_are_read_in_dotted_decimal_notation() {
    use_parse4("0.0.0.0", Some(0));
    use_parse4("192.168.1.1", Some(0xc0a8_0101));
    use_parse4("255.255.255.255", Some(u32::MAX));
    use_parse4("1.2.3.4", Some(0x0102_0304));
    use_parse4("10.0.0.1", Some(0x0a00_0001));
    for bad in [
        "", ".", "1.2.3", "1.2.3.4.5", "1.2.3.", ".1.2.3", "1..2.3", "256.1.1.1", "1.1.1.256",
        "01.2.3.4", "1.2.3.04", "1.2.3.4 ", " 1.2.3.4", "a.b.c.d", "1.2.3.-4", "1,2,3,4",
        "1.2.3.0x4", "1000.1.1.1", "::1", "１.2.3.4",
    ] {
        use_parse4(bad, None);
    }
}

fn use_parse4(text: &str, expected: Option<u32>) {
    assert_eq!(forensic_rs::utils::ip::ipv4_from_str(text), expected, "{:?}", text);
}

#[test]
fn addresses_of_version_6_are_read_with_and_without_a_gap() {
    use_parse6("::", Some(0));
    use_parse6("::1", Some(1));
    use_parse6("1::", Some(0x0001_0000_0000_0000_0000_0000_0000_0000));
    use_parse6("2001:db8::1", Some(0x2001_0db8_0000_0000_0000_0000_0000_0001));
    use_parse6("2001:DB8::A:b", Some(0x2001_0db8_0000_0000_0000_0000_000a_000b));
    use_parse6("0:0:0:0:0:0:0:1", Some(1));
    use_parse6("0001:0002:0003:0004:0005:0006:0007:0008", Some(0x0001_0002_0003_0004_0005_0006_0007_0008));
    use_parse6("1:2:3:4:5:6:7::", Some(0x0001_0002_0003_0004_0005_0006_0007_0000));
    use_parse6("::2:3:4:5:6:7:8", Some(0x0000_0002_0003_0004_0005_0006_0007_0008));
    use_parse6("1:2:3::6:7:8", Some(0x0001_0002_0003_0000_0000_0006_0007_0008));
    use_parse6("ffff:ffff:ffff:ffff:ffff:ffff:ffff:ffff", Some(u128::MAX));
    for bad in [
        "", ":", ":::", "1", "1:2:3:4:5:6:7", "1:2:3:4:5:6:7:8:9", "1:2:3:4:5:6:7:8::", "::1:2:3:4:5:6:7:8",
        "1::2::3", "1:::2", ":1", "1:", ":1::", "::1:", "12345::", "g::", "1:2:3:4:5:6:7:", "1.2.3.4",
        "::ffff:1.2.3.4", " ::1", "::1 ", "1::-2",
    ] {
        use_parse6(bad, None);
    }
}

fn use_parse6(text: &str, expected: Option<u128>) {
    assert_eq!(forensic_rs::utils::ip::ipv6_from_str(text), expected, "{:?}", text);
}

#[test]
fn an_address_is_compared_with_text_of_its_version() {
    assert!(Ip::V4(0xc0a8_0101).equals("192.168.1.1"));
    assert!(!Ip::V4(0xc0a8_0101).equals("192.168.1.2"));
    assert!(!Ip::V4(1).equals("::1"));
    assert!(!Ip::V4(1).equals("not an address"));
    assert!(Ip::V6(1).equals("::1"));
    assert!(Ip::V6(1).equals("0:0:0:0:0:0:0:1"));
    assert!(!Ip::V6(1).equals("0.0.0.1"));
    assert!(!Ip::V6(1).equals("::2"));
}

#[test]
fn an_address_is_read_in_either_version() {
    assert_eq!(Ip::from_ip_str("8.8.8.8"), Ok(Ip::V4(0x0808_0808)));
    assert_eq!(Ip::from_ip_str("fe80::1"), Ok(Ip::V6(0xfe80_0000_0000_0000_0000_0000_0000_0001)));
    assert_eq!(Ip::from_ip_str("localhost"), Err("Invalid IP format"));
    assert_eq!(Ip::from_ip_str(""), Err("Invalid IP format"));
}

#[test]
fn what_is_written_is_read_back() {
    for ip in [0u32, 1, 255, 256, 0x0a00_0001, 0xc0a8_0101, u32::MAX, 0x0102_0304, 0x6400_0a00] {
        let text = Ip::V4(ip).to_string();
        assert_eq!(Ip::from_ip_str(&text), Ok(Ip::V4(ip)), "{}", text);
    }
    for ip in [
        0u128,
        1,
        0xffff,
        0x1_0000,
        u128::MAX,
        0x2001_0db8_0000_0000_0000_0000_0000_0001,
        0x2001_0000_0000_0001_0000_0000_0001_0001,
        0x0001_0000_0000_0000_0000_0000_0000_0000,
        0x0000_0000_0000_0000_0000_ffff_c0a8_0101,
        0x0001_0002_0003_0004_0005_0006_0007_0008,
        0x0001_0000_0003_0000_0005_0000_0007_0000,
    ] {
        let text = Ip::V6(ip).to_string();
        assert_eq!(Ip::from_ip_str(&text), Ok(Ip::V6(ip)), "{}", text);
    }
}

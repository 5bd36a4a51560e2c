use forensic_rs::err::{BadFormatError, ForensicError, MissingError};
use forensic_rs::strmap::StrMap;
use forensic_rs::text::{
    ascii_uppercase, ends_with, find_sep, split_once_sep, starts_with, str_eq, str_order,
    u64_to_decimal, u64_to_decimal_padded, Order3,
};

#[test]
fn errors_are_described() {
    assert_eq!(ForensicError::PermissionError.to_string(), "Not enough permissions");
    assert_eq!(ForensicError::NoMoreData.to_string(), "No more content/data/files");
    assert_eq!(ForensicError::Other("x".to_string()).to_string(), "An error ocurred: x");
    assert_eq!(ForensicError::missing_str("m").to_string(), "A file/data cannot be found: m");
    assert_eq!(
        ForensicError::bad_format_string("b".to_string()).to_string(),
        "The data have an unexpected format: b"
    );
    assert_eq!(ForensicError::Io("disk".to_string()).to_string(), "IO operations error: disk");
    assert_eq!(ForensicError::CastError.to_string(), "The Into/Form operation cannot be executed");
    assert_eq!(
        ForensicError::IllegalTimestamp("never".to_string()).to_string(),
        "Illegal timestamp: 'never'"
    );
}

#[test]
fn errors_are_equal_where_they_say_the_same() {
    assert_eq!(ForensicError::missing_str("a"), ForensicError::missing_string("a".to_string()));
    assert_eq!(ForensicError::bad_format_str("a"), ForensicError::BadFormat(BadFormatError("a".to_string())));
    assert_eq!(ForensicError::Missing(MissingError("a".to_string())), ForensicError::missing_str("a"));
    assert_ne!(ForensicError::missing_str("a"), ForensicError::missing_str("b"));
    assert_ne!(ForensicError::missing_str("a"), ForensicError::bad_format_str("a"));
    assert_ne!(ForensicError::NoMoreData, ForensicError::CastError);
    assert_eq!(ForensicError::PermissionError, ForensicError::PermissionError);
    assert_eq!(
        ForensicError::IllegalTimestamp("t".to_string()),
        ForensicError::IllegalTimestamp("t".to_string())
    );
    // A failed input or output operation equals no error.
    assert_ne!(ForensicError::Io("x".to_string()), ForensicError::Io("x".to_string()));
}

#[test]
fn a_cloned_error_says_the_same() {
    for error in [
        ForensicError::PermissionError,
        ForensicError::NoMoreData,
        ForensicError::Other("o".to_string()),
        ForensicError::missing_str("m"),
        ForensicError::bad_format_str("b"),
        ForensicError::CastError,
        ForensicError::IllegalTimestamp("i".to_string()),
    ] {
        assert_eq!(error.clone(), error);
    }
    assert_eq!(ForensicError::Io("io".to_string()).clone().to_string(), "IO operations error: io");
}

#[test]
fn texts_are_ordered_by_code_point() {
    assert_eq!(str_order("", ""), Order3::Equal);
    assert_eq!(str_order("", "a"), Order3::Less);
    assert_eq!(str_order("a", ""), Order3::Greater);
    assert_eq!(str_order("abc", "abd"), Order3::Less);
    assert_eq!(str_order("abc", "ab"), Order3::Greater);
    assert_eq!(str_order("Z", "a"), Order3::Less);
    assert_eq!(str_order("é", "z"), Order3::Greater);
    assert_eq!(str_order("same", "same"), Order3::Equal);
    assert!(str_eq("same", "same"));
    assert!(!str_eq("same", "Same"));
}

#[test]
fn prefixes_suffixes_and_separators() {
    assert!(starts_with("S-1-5", "S-"));
    assert!(starts_with("S-", "S-"));
    assert!(starts_with("abc", ""));
    assert!(!starts_with("S", "S-"));
    assert!(!starts_with("s-1", "S-"));
    assert!(ends_with("S-1-5_Classes", "_Classes"));
    assert!(ends_with("_Classes", "_Classes"));
    assert!(!ends_with("Classes", "_Classes"));
    assert!(!ends_with("x_classes", "_Classes"));
    assert_eq!(find_sep("ab/c\\d"), 2);
    assert_eq!(find_sep("ab\\c/d"), 2);
    assert_eq!(find_sep("abc"), 3);
    assert_eq!(find_sep(""), 0);
    assert_eq!(split_once_sep("ä/b\\c"), Some(("ä", "b\\c")));
    assert_eq!(split_once_sep("/"), Some(("", "")));
    assert_eq!(split_once_sep("abc"), None);
}

#[test]
fn numbers_are_written_in_decimal() {
    assert_eq!(u64_to_decimal(0), "0");
    assert_eq!(u64_to_decimal(7), "7");
    assert_eq!(u64_to_decimal(10), "10");
    assert_eq!(u64_to_decimal(1234567890), "1234567890");
    assert_eq!(u64_to_decimal(u64::MAX), "18446744073709551615");
    assert_eq!(u64_to_decimal_padded(0, 2), "00");
    assert_eq!(u64_to_decimal_padded(7, 2), "07");
    assert_eq!(u64_to_decimal_padded(42, 2), "42");
    assert_eq!(u64_to_decimal_padded(123, 2), "123");
    assert_eq!(u64_to_decimal_padded(5, 0), "5");
    assert_eq!(u64_to_decimal_padded(1601, 4), "1601");
    assert_eq!(u64_to_decimal_padded(33, 4), "0033");
}

#[test]
fn capitals_of_basic_latin_letters_only() {
    assert_eq!(ascii_uppercase("{fd228cb7-ae11}"), "{FD228CB7-AE11}");
    assert_eq!(ascii_uppercase("already UPPER 123"), "ALREADY UPPER 123");
    assert_eq!(ascii_uppercase("straße é"), "STRAßE é");
    assert_eq!(ascii_uppercase(""), "");
    assert_eq!(ascii_uppercase("z"), "Z");
}

#[test]
fn a_map_of_texts_keeps_its_names_in_order() {
    let mut map: StrMap<u32> = StrMap::new();
    assert_eq!(map.len(), 0);
    assert_eq!(map.insert("b".to_string(), 2), None);
    assert_eq!(map.insert("a".to_string(), 1), None);
    assert_eq!(map.insert("c".to_string(), 3), None);
    assert_eq!(map.insert("b".to_string(), 20), Some(2));
    assert_eq!(map.keys(), vec!["a", "b", "c"]);
    assert_eq!(map.len(), 3);
    assert_eq!(map.get("b"), Some(&20));
    assert_eq!(map.get("d"), None);
    assert!(map.contains_key("a"));
    assert!(!map.contains_key(""));
    assert_eq!(map.name_at(0), "a");
    assert_eq!(map.value_at(2), &3);
    assert_eq!(map.remove("a"), Some(1));
    assert_eq!(map.remove("a"), None);
    assert_eq!(map.keys(), vec!["b", "c"]);
}

#[test]
fn errors_have_a_short_text() {
    assert_eq!(ForensicError::PermissionError.description(), "Not enough permissions");
    assert_eq!(ForensicError::NoMoreData.description(), "No more content/data/files");
    assert_eq!(ForensicError::Other("x".to_string()).description(), "x");
    assert_eq!(ForensicError::missing_str("m").description(), "m");
    assert_eq!(ForensicError::bad_format_str("b").description(), "b");
    assert_eq!(ForensicError::Io("disk".to_string()).description(), "IO operations error");
    assert_eq!(
        ForensicError::CastError.description(),
        "The Into/Form operation cannot be executed"
    );
    assert_eq!(ForensicError::IllegalTimestamp("t".to_string()).description(), "Illegal timestamp");
    assert_eq!(BadFormatError("b".to_string()).to_string(), "b");
    assert_eq!(MissingError("m".to_string()).to_string(), "m");
    let from_text: ForensicError = "text".into();
    assert_eq!(from_text, ForensicError::Other("text".to_string()));
    let from_string: ForensicError = "text".to_string().into();
    assert_eq!(from_string, ForensicError::Other("text".to_string()));
    let from_missing: ForensicError = MissingError("m".to_string()).into();
    assert_eq!(from_missing, ForensicError::missing_str("m"));
    let from_format: ForensicError = (&BadFormatError("b".to_string())).into();
    assert_eq!(from_format, ForensicError::bad_format_str("b"));
}

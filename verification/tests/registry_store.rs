use forensic_rs::err::ForensicError;
use forensic_rs::traits::registry::{RegHiveKey, RegValue, RegistryReader};
use forensic_rs::utils::testing::{MountedCell, TestingRegistry};

const TEST_USER: &str = "S-1-5-21-1366093794-4292800403-1155380978-513";

#[test]
fn basic_navigation_reads_the_user_name() {
    let mut reader = TestingRegistry::new();
    let user_key = reader.open_key(RegHiveKey::HkeyUsers, TEST_USER).unwrap();
    let volatile_key = reader.open_key(user_key, "Volatile Environment").unwrap();
    let value = reader.read_value(volatile_key, "USERNAME").unwrap();
    assert_eq!(RegValue::SZ("Tester".to_string()), value);
}

#[test]
fn missing_key_is_reported_as_missing() {
    let mut reader = TestingRegistry::new();
    let err = reader.open_key(RegHiveKey::HkeyLocalMachine, "Does\\Not\\Exist").unwrap_err();
    assert!(matches!(err, ForensicError::Missing(_)));
    assert_eq!(
        err.to_string(),
        "A file/data cannot be found: Key path HKLM\\Does\\Not\\Exist not found"
    );
}

#[test]
fn unknown_handle_is_reported_as_missing() {
    let mut reader = TestingRegistry::new();
    let err = reader.open_key(RegHiveKey::Hkey(77), "Software").unwrap_err();
    assert_eq!(err, ForensicError::missing_str("Hkey not found"));
    let err = reader.read_value(RegHiveKey::HkeyDynData, "x").unwrap_err();
    assert_eq!(err, ForensicError::missing_str("HKey not found"));
    assert!(matches!(reader.enumerate_keys(RegHiveKey::Hkey(3)), Err(ForensicError::Missing(_))));
    assert!(matches!(reader.enumerate_values(RegHiveKey::Hkey(3)), Err(ForensicError::Missing(_))));
    assert!(matches!(reader.key_info(RegHiveKey::Hkey(3)), Err(ForensicError::Missing(_))));
}

#[test]
fn round_trip_returns_every_kind_of_value() {
    let values = vec![
        RegValue::Binary(vec![0, 1, 254, 255]),
        RegValue::MultiSZ(vec!["one".to_string(), "two".to_string()]),
        RegValue::ExpandSZ("%SystemRoot%\\System32".to_string()),
        RegValue::SZ("plain".to_string()),
        RegValue::DWord(0xdead_beef),
        RegValue::QWord(0xdead_beef_0000_0001),
    ];
    let mut reader = TestingRegistry::new();
    for (i, value) in values.iter().enumerate() {
        reader.add_value("HKLM\\Software\\Vendor\\Product", &format!("value{}", i), value.clone());
    }
    let vendor = reader.open_key(RegHiveKey::HkeyLocalMachine, "Software\\Vendor").unwrap();
    let product = reader.open_key(vendor, "Product").unwrap();
    for (i, value) in values.iter().enumerate() {
        assert_eq!(&reader.read_value(product, &format!("value{}", i)).unwrap(), value);
    }
    // A value that was never put is missing, with the path in the message.
    let err = reader.read_value(product, "value6").unwrap_err();
    assert_eq!(
        err.to_string(),
        "A file/data cannot be found: Value HKLM\\Software\\Vendor\\Product\\value6 not found"
    );
}

#[test]
fn adding_a_value_again_replaces_it() {
    let mut reader = TestingRegistry::empty();
    reader.add_value("HKLM\\A", "v", RegValue::from_u32(1));
    reader.add_value("HKLM\\A", "v", RegValue::from_u32(2));
    assert_eq!(reader.get_value("HKLM\\A", "v"), Some(RegValue::DWord(2)));
    assert_eq!(reader.get_values("HKLM\\A"), Some(vec!["v".to_string()]));
}

#[test]
fn a_key_may_hold_values_and_subkeys_of_one_name() {
    let mut reader = TestingRegistry::empty();
    reader.add_value("HKLM\\A", "same", RegValue::from_u32(1));
    reader.add_value("HKLM\\A\\same", "inner", RegValue::from_u32(2));
    let a = reader.open_key(RegHiveKey::HkeyLocalMachine, "A").unwrap();
    assert_eq!(reader.read_value(a, "same").unwrap(), RegValue::DWord(1));
    let inner = reader.open_key(a, "same").unwrap();
    assert_eq!(reader.read_value(inner, "inner").unwrap(), RegValue::DWord(2));
    assert_eq!(reader.enumerate_keys(a).unwrap(), vec!["same".to_string()]);
    assert_eq!(reader.enumerate_values(a).unwrap(), vec!["same".to_string()]);
}

#[test]
fn enumeration_is_in_lexicographic_order() {
    let mut reader = TestingRegistry::empty();
    for name in ["delta", "Alpha", "charlie", "bravo", "alpha", "b", "", "bravo2"] {
        reader.add_value(&format!("HKLM\\Keys\\{}", name), "x", RegValue::from_u32(0));
        reader.add_value("HKLM\\Values", name, RegValue::from_u32(0));
    }
    let expected: Vec<String> = ["Alpha", "alpha", "b", "bravo", "bravo2", "charlie", "delta"]
        .iter()
        .map(|s| s.to_string())
        .collect();
    let keys = reader.open_key(RegHiveKey::HkeyLocalMachine, "Keys").unwrap();
    // A path that ends with a separator leads to the key before the
    // separator, so the empty name made no subkey.
    assert_eq!(reader.enumerate_keys(keys).unwrap(), expected);
    let values = reader.open_key(RegHiveKey::HkeyLocalMachine, "Values").unwrap();
    let mut with_empty = vec![String::new()];
    with_empty.extend(expected);
    assert_eq!(reader.enumerate_values(values).unwrap(), with_empty);
}

#[test]
fn positions_agree_with_the_enumeration() {
    let mut reader = TestingRegistry::new();
    for name in ["zeta", "eta", "theta", "iota"] {
        reader.add_value(&format!("HKCU\\Greek\\{}", name), "x", RegValue::from_u32(0));
        reader.add_value("HKCU\\Greek", name, RegValue::from_u32(0));
    }
    let key = reader.open_key(RegHiveKey::HkeyCurrentUser, "Greek").unwrap();
    let keys = reader.enumerate_keys(key).unwrap();
    let values = reader.enumerate_values(key).unwrap();
    assert_eq!(keys, vec!["eta", "iota", "theta", "zeta"]);
    for (i, name) in keys.iter().enumerate() {
        assert_eq!(&reader.key_at(key, i as u32).unwrap(), name);
    }
    for (i, name) in values.iter().enumerate() {
        assert_eq!(&reader.value_at(key, i as u32).unwrap(), name);
    }
    // At the length of the enumeration and beyond it there is no more data.
    assert_eq!(reader.key_at(key, 4), Err(ForensicError::NoMoreData));
    assert_eq!(reader.key_at(key, 5), Err(ForensicError::NoMoreData));
    assert_eq!(reader.key_at(key, u32::MAX), Err(ForensicError::NoMoreData));
    assert_eq!(reader.value_at(key, 4), Err(ForensicError::NoMoreData));
    assert_eq!(reader.value_at(key, 1000), Err(ForensicError::NoMoreData));
}

#[test]
fn both_separators_lead_to_the_same_key() {
    let mut reader = TestingRegistry::new();
    reader.add_value("HKLM/A\\B/C", "v", RegValue::from_str("here"));
    assert!(reader.contains("HKLM\\A\\B\\C"));
    assert!(reader.contains("HKLM/A/B/C"));
    let forward = reader.open_key(RegHiveKey::HkeyLocalMachine, "A/B/C").unwrap();
    let backward = reader.open_key(RegHiveKey::HkeyLocalMachine, "A\\B\\C").unwrap();
    assert_ne!(forward, backward);
    assert_eq!(reader.read_value(forward, "v").unwrap(), RegValue::from_str("here"));
    assert_eq!(reader.read_value(backward, "v").unwrap(), RegValue::from_str("here"));
    assert_eq!(reader.enumerate_values(forward).unwrap(), reader.enumerate_values(backward).unwrap());
}

#[test]
fn handles_are_given_out_in_order_and_never_again() {
    let mut reader = TestingRegistry::new();
    let first = reader.open_key(RegHiveKey::HkeyUsers, TEST_USER).unwrap();
    let second = reader.open_key(RegHiveKey::HkeyUsers, TEST_USER).unwrap();
    assert_eq!(first, RegHiveKey::Hkey(0));
    assert_eq!(second, RegHiveKey::Hkey(1));
    // A failed attempt gives out no handle.
    assert!(reader.open_key(first, "nothing").is_err());
    reader.close_key(first);
    let third = reader.open_key(second, "Volatile Environment").unwrap();
    assert_eq!(third, RegHiveKey::Hkey(2));
    // Closing is advisory: the handle still designates its key.
    assert!(reader.enumerate_keys(first).is_ok());
    assert_eq!(reader.increase_counter(), 3);
    assert_eq!(reader.counter, 4);
}

#[test]
fn reads_do_not_create_keys() {
    let mut reader = TestingRegistry::new();
    assert!(reader.open_key(RegHiveKey::HkeyLocalMachine, "Ghost").is_err());
    assert_eq!(reader.get_value("HKLM\\Ghost", "v"), None);
    assert_eq!(reader.get_keys("HKLM\\Ghost"), Some(vec![]));
    assert!(!reader.contains("HKLM\\Ghost"));
    // The hive is there, the path is not: there is nothing to enumerate.
    assert_eq!(reader.get_values("HKLM\\Ghost"), Some(vec![]));
    // Without the hive there is no enumeration at all.
    assert_eq!(reader.get_values("HKXX\\Ghost"), None);
    assert_eq!(reader.get_keys("HKXX"), None);
}

#[test]
fn new_registry_holds_the_test_user() {
    let reader = TestingRegistry::new();
    assert_eq!(
        reader.get_keys(""),
        None,
        "the empty path names a hive that is not there"
    );
    for hive in ["HKLM", "HKCU", "HKCR", "HKU"] {
        assert!(reader.contains(hive));
    }
    assert_eq!(reader.get_keys("HKU"), Some(vec![TEST_USER.to_string()]));
    let path = format!("HKU\\{}\\Volatile Environment", TEST_USER);
    assert_eq!(
        reader.get_values(&path),
        Some(vec![
            "APPDATA".to_string(),
            "LOCALAPPDATA".to_string(),
            "USERDOMAIN".to_string(),
            "USERNAME".to_string(),
            "USERPROFILE".to_string()
        ])
    );
    assert_eq!(reader.get_value(&path, "USERPROFILE"), Some(RegValue::from_str("C:\\Users\\Tester")));
    assert_eq!(
        reader.get_value(&path, "APPDATA"),
        Some(RegValue::from_str("C:\\Users\\Tester\\AppData\\Roaming"))
    );
    assert_eq!(
        reader.get_value(&path, "LOCALAPPDATA"),
        Some(RegValue::from_str("C:\\Users\\Tester\\AppData\\Local"))
    );
    assert_eq!(reader.get_value(&path, "USERDOMAIN"), Some(RegValue::from_str("TestMachine")));
}

#[test]
fn empty_registry_knows_the_roots_and_holds_nothing() {
    let mut reader = TestingRegistry::empty();
    assert!(!reader.contains("HKLM"));
    assert!(matches!(
        reader.enumerate_keys(RegHiveKey::HkeyLocalMachine),
        Err(ForensicError::Missing(_))
    ));
    assert!(reader.open_key(RegHiveKey::HkeyLocalMachine, "Software").is_err());
    reader.add_value("HKLM", "top", RegValue::from_u32(1));
    assert_eq!(reader.read_value(RegHiveKey::HkeyLocalMachine, "top").unwrap(), RegValue::DWord(1));
}

#[test]
fn key_info_counts_names_and_lengths() {
    let mut reader = TestingRegistry::empty();
    reader.add_value("HKLM\\K\\sub", "x", RegValue::from_u32(0));
    reader.add_value("HKLM\\K\\longer subkey", "x", RegValue::from_u32(0));
    reader.add_value("HKLM\\K", "v1", RegValue::from_u32(0));
    reader.add_value("HKLM\\K", "value two", RegValue::from_u32(0));
    reader.add_value("HKLM\\K", "v3", RegValue::from_u32(0));
    let key = reader.open_key(RegHiveKey::HkeyLocalMachine, "K").unwrap();
    let info = reader.key_info(key).unwrap();
    assert_eq!(info.subkeys, 2);
    assert_eq!(info.values, 3);
    assert_eq!(info.max_subkey_name_length, 13);
    assert_eq!(info.max_value_name_length, 9);
    assert_eq!(info.max_value_length, 0);
    assert_eq!(info.last_write_time.filetime(), 0);
    assert_eq!(info.last_write_time.year(), 1601);
}

#[test]
fn key_info_measures_names_in_bytes() {
    let mut reader = TestingRegistry::empty();
    reader.add_value("HKLM\\K\\\u{e9}", "x", RegValue::from_u32(0));
    reader.add_value("HKLM\\K", "\u{20ac}\u{20ac}", RegValue::from_u32(0));
    reader.add_value("HKLM\\K", "abcde", RegValue::from_u32(0));
    let key = reader.open_key(RegHiveKey::HkeyLocalMachine, "K").unwrap();
    let info = reader.key_info(key).unwrap();
    assert_eq!(info.subkeys, 1);
    assert_eq!(info.max_subkey_name_length, 2);
    assert_eq!(info.values, 2);
    assert_eq!(info.max_value_name_length, 6);
    let leaf = reader.open_key(key, "\u{e9}").unwrap();
    let info = reader.key_info(leaf).unwrap();
    assert_eq!((info.subkeys, info.max_subkey_name_length), (0, 0));
    assert_eq!((info.values, info.max_value_name_length), (1, 1));
}

#[test]
fn mounted_cell_adds_keys_along_the_path() {
    let mut cell = MountedCell::new("root");
    cell.add_key("a\\b/c");
    cell.add_key("a\\d");
    cell.add_key("");
    assert!(cell.contains_key("a"));
    assert!(cell.contains_key("a/b"));
    assert!(cell.contains_key("a\\b\\c"));
    assert!(cell.contains_key("a\\d"));
    assert!(!cell.contains_key("b"));
    assert!(!cell.contains_key(""));
    assert_eq!(cell.get_keys("a"), vec!["b".to_string(), "d".to_string()]);
    assert_eq!(cell.get_keys(""), vec!["a".to_string()]);
    assert_eq!(cell.get_keys("missing"), Vec::<String>::new());
    assert_eq!(cell.name, "root");
}

#[test]
fn mounted_cell_holds_values_at_every_depth() {
    let mut cell = MountedCell::new("hive");
    cell.add_value("", "here", RegValue::from_u32(1));
    cell.add_value("x", "there", RegValue::from_u32(2));
    cell.add_value("x\\y\\", "deep", RegValue::from_u32(3));
    assert_eq!(cell.get_value("", "here"), Some(RegValue::DWord(1)));
    assert_eq!(cell.get_value("x", "there"), Some(RegValue::DWord(2)));
    assert_eq!(cell.get_value("x/y", "deep"), Some(RegValue::DWord(3)));
    assert_eq!(cell.get_value("x/y", "there"), None);
    assert_eq!(cell.get_value("x/z", "deep"), None);
    assert_eq!(cell.get_values("x\\y"), vec!["deep".to_string()]);
    assert_eq!(cell.get_values(""), vec!["here".to_string()]);
}

#[test]
fn no_key_is_opened_once_the_handles_are_used_up() {
    let mut reader = TestingRegistry::new();
    reader.counter = isize::MAX - 1;
    let last = reader.open_key(RegHiveKey::HkeyUsers, TEST_USER).unwrap();
    assert_eq!(last, RegHiveKey::Hkey(isize::MAX - 1));
    let err = reader.open_key(RegHiveKey::HkeyUsers, TEST_USER).unwrap_err();
    assert_eq!(err, ForensicError::Other("No handles left".to_string()));
    assert_eq!(reader.counter, isize::MAX);
    // What was opened before can still be read.
    assert_eq!(reader.enumerate_keys(last).unwrap(), vec!["Volatile Environment".to_string()]);
    // A key that is not there is still reported as missing.
    assert!(matches!(
        reader.open_key(RegHiveKey::HkeyUsers, "nobody"),
        Err(ForensicError::Missing(_))
    ));
}

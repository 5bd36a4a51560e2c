use forensic_rs::err::{ForensicError, ForensicResult};
use forensic_rs::traits::registry::{
    auto_close_key, RegHiveKey, RegValue, RegistryKeyInfo, RegistryReader,
};
use forensic_rs::utils::testing::TestingRegistry;
use forensic_rs::utils::time::Filetime;

struct RegReader {}

impl RegistryReader for RegReader {
    fn from_file<F>(&self, _file: F) -> ForensicResult<RegReader> {
        Ok(RegReader {})
    }

    fn from_fs<S>(&self, _fs: S) -> ForensicResult<RegReader> {
        Ok(RegReader {})
    }

    fn open_key(&mut self, _hkey: RegHiveKey, _key_name: &str) -> ForensicResult<RegHiveKey> {
        Ok(RegHiveKey::HkeyClassesRoot)
    }

    fn read_value(&self, _hkey: RegHiveKey, _value_name: &str) -> ForensicResult<RegValue> {
        Ok(RegValue::SZ(format!("123")))
    }

    fn enumerate_values(&self, _hkey: RegHiveKey) -> ForensicResult<Vec<String>> {
        Ok(vec![format!("123")])
    }

    fn enumerate_keys(&self, _hkey: RegHiveKey) -> ForensicResult<Vec<String>> {
        Ok(vec![format!("123")])
    }

    fn key_at(&self, _hkey: RegHiveKey, _pos: u32) -> ForensicResult<String> {
        Ok(format!("123"))
    }

    fn value_at(&self, _hkey: RegHiveKey, _pos: u32) -> ForensicResult<String> {
        Ok(format!("123"))
    }

    fn key_info(&self, _hkey: RegHiveKey) -> ForensicResult<RegistryKeyInfo> {
        Ok(RegistryKeyInfo {
            subkeys: 0,
            max_subkey_name_length: 0,
            values: 0,
            max_value_name_length: 0,
            max_value_length: 0,
            last_write_time: Filetime::new(0),
        })
    }
}

fn tst<R: RegistryReader>(reg: &mut R) -> ForensicResult<()> {
    assert_eq!("123", reg.key_at(RegHiveKey::HkeyClassesRoot, 123)?);
    Ok(())
}

#[test]
fn mod_should_generate_dummy_registry_reader() {
    let mut reader = RegReader {};
    tst(&mut reader).unwrap();
}

#[test]
fn registry_should_generate_dummy_registry_reader() {
    let mut reader = RegReader {};
    tst(&mut reader).unwrap();
}

#[test]
fn derived_queries_work_on_any_backend() {
    let mut reader = RegReader {};
    assert_eq!(reader.get_system_root().unwrap(), "123");
    // The only key of the users hive does not look like a SID.
    assert_eq!(reader.list_users().unwrap(), Vec::<String>::new());
    // A text is no build number.
    assert!(reader.windows_build().is_err());
}

#[test]
fn system_root_and_build_are_read_from_the_current_version_key() {
    let mut reader = TestingRegistry::new();
    reader.add_value(
        "HKLM\\SOFTWARE\\Microsoft\\Windows NT\\CurrentVersion",
        "SystemRoot",
        RegValue::from_str("D:\\Windows"),
    );
    reader.add_value(
        "HKLM\\SOFTWARE\\Microsoft\\Windows NT\\CurrentVersion",
        "CurrentBuild",
        RegValue::from_u32(19045),
    );
    assert_eq!(reader.get_system_root().unwrap(), "D:\\Windows");
    assert_eq!(reader.windows_build().unwrap(), 19045);
}

#[test]
fn system_root_and_build_tell_a_missing_value_from_one_of_another_kind() {
    let mut reader = TestingRegistry::new();
    // The key is not there.
    assert!(matches!(reader.get_system_root(), Err(ForensicError::Missing(_))));
    assert!(matches!(reader.windows_build(), Err(ForensicError::Missing(_))));
    // The key is there, the values are not.
    reader.add_value(
        "HKLM\\SOFTWARE\\Microsoft\\Windows NT\\CurrentVersion",
        "ProductName",
        RegValue::from_str("Windows"),
    );
    assert!(matches!(reader.get_system_root(), Err(ForensicError::Missing(_))));
    assert!(matches!(reader.windows_build(), Err(ForensicError::Missing(_))));
    // The values are there, of the wrong kind.
    reader.add_value(
        "HKLM\\SOFTWARE\\Microsoft\\Windows NT\\CurrentVersion",
        "SystemRoot",
        RegValue::from_u32(1),
    );
    reader.add_value(
        "HKLM\\SOFTWARE\\Microsoft\\Windows NT\\CurrentVersion",
        "CurrentBuild",
        RegValue::from_str("19045"),
    );
    assert!(matches!(reader.get_system_root(), Err(ForensicError::CastError)));
    assert!(matches!(reader.windows_build(), Err(ForensicError::CastError)));
}

#[test]
fn list_users_hands_on_the_error_of_the_enumeration() {
    let reader = TestingRegistry::empty();
    let listed = reader.list_users().unwrap_err();
    let enumerated = reader.enumerate_keys(RegHiveKey::HkeyUsers).unwrap_err();
    assert!(matches!(listed, ForensicError::Missing(_)));
    assert_eq!(listed.to_string(), enumerated.to_string());
}

#[test]
fn list_users_keeps_sids_and_drops_classes() {
    let mut reader = TestingRegistry::new();
    reader.add_value("HKU\\S-1-5-18", "x", RegValue::from_u32(1));
    reader.add_value("HKU\\S-1-5-21-1-2-3-1001_Classes", "x", RegValue::from_u32(1));
    reader.add_value("HKU\\.DEFAULT", "x", RegValue::from_u32(1));
    assert_eq!(
        reader.list_users().unwrap(),
        vec![
            "S-1-5-18".to_string(),
            "S-1-5-21-1366093794-4292800403-1155380978-513".to_string()
        ]
    );
}

#[test]
fn auto_close_key_hands_on_the_result() {
    let mut reader = TestingRegistry::new();
    let user_key = reader
        .open_key(RegHiveKey::HkeyUsers, "S-1-5-21-1366093794-4292800403-1155380978-513")
        .unwrap();
    let volatile_key = reader.open_key(user_key, "Volatile Environment").unwrap();
    let name: String = auto_close_key(&reader, volatile_key, || {
        reader.read_value(volatile_key, "USERNAME")?.into_text()
    })
    .unwrap();
    assert_eq!(name, "Tester");
    let failed: ForensicResult<String> = auto_close_key(&reader, volatile_key, || {
        reader.read_value(volatile_key, "NOT THERE")?.into_text()
    });
    assert!(failed.is_err());
}

#[test]
fn basic_user_info_is_read_from_the_session_variables() {
    let mut reader = TestingRegistry::new();
    let info = reader
        .get_basic_user_info("S-1-5-21-1366093794-4292800403-1155380978-513")
        .unwrap();
    assert_eq!(info.id, "S-1-5-21-1366093794-4292800403-1155380978-513");
    assert_eq!(info.home, "C:\\Users\\Tester");
    assert_eq!(info.app_data, "C:\\Users\\Tester\\AppData\\Roaming");
    assert_eq!(info.local_app_data, "C:\\Users\\Tester\\AppData\\Local");
    assert_eq!(info.domain, "TestMachine");
    assert_eq!(info.name, "Tester");
    let copy = info.clone();
    assert_eq!(copy.name, info.name);
    // A user without a key, and a user whose variables are not all there.
    assert!(matches!(reader.get_basic_user_info("S-1-5-18"), Err(ForensicError::Missing(_))));
    reader.add_value("HKU\\S-1-5-19\\Volatile Environment", "USERPROFILE", RegValue::from_str("x"));
    assert!(matches!(reader.get_basic_user_info("S-1-5-19"), Err(ForensicError::Missing(_))));
    // The first variable that cannot be read decides the error.
    reader.add_value("HKU\\S-1-5-19\\Volatile Environment", "LOCALAPPDATA", RegValue::from_u32(1));
    assert!(matches!(reader.get_basic_user_info("S-1-5-19"), Err(ForensicError::Missing(_))));
    reader.add_value("HKU\\S-1-5-19\\Volatile Environment", "APPDATA", RegValue::from_str("y"));
    assert!(matches!(reader.get_basic_user_info("S-1-5-19"), Err(ForensicError::CastError)));
    // A variable that holds no text is a cast error.
    for name in ["USERPROFILE", "APPDATA", "LOCALAPPDATA", "USERDOMAIN"] {
        reader.add_value("HKU\\S-1-5-20\\Volatile Environment", name, RegValue::from_str("x"));
    }
    reader.add_value("HKU\\S-1-5-20\\Volatile Environment", "USERNAME", RegValue::from_u32(1));
    assert_eq!(
        reader.get_basic_user_info("S-1-5-20").unwrap_err(),
        forensic_rs::err::ForensicError::CastError
    );
}

#[test]
fn a_cloned_registry_holds_the_same_and_goes_its_own_way() {
    let mut reader = TestingRegistry::new();
    let user = reader
        .open_key(RegHiveKey::HkeyUsers, "S-1-5-21-1366093794-4292800403-1155380978-513")
        .unwrap();
    let mut copy = reader.clone();
    assert_eq!(copy.counter, reader.counter);
    assert_eq!(copy.enumerate_keys(user).unwrap(), reader.enumerate_keys(user).unwrap());
    copy.add_value("HKLM\\OnlyInCopy", "v", RegValue::from_u32(1));
    assert!(copy.contains("HKLM\\OnlyInCopy"));
    assert!(!reader.contains("HKLM\\OnlyInCopy"));
    let environment = copy.open_key(user, "Volatile Environment").unwrap();
    assert_eq!(
        copy.read_value(environment, "USERNAME").unwrap(),
        RegValue::from_str("Tester")
    );
    assert_eq!(TestingRegistry::default().get_keys("HKU"), reader.get_keys("HKU"));
}

#[test]
fn a_test_registry_is_mounted_anew_whatever_the_source() {
    let mut reader = TestingRegistry::empty();
    reader.add_value("HKLM\\Only", "here", RegValue::from_u32(1));
    let mut mounted = reader.from_file(vec![0u8; 4]).unwrap();
    assert!(!mounted.contains("HKLM\\Only"));
    assert!(mounted
        .open_key(RegHiveKey::HkeyUsers, "S-1-5-21-1366093794-4292800403-1155380978-513")
        .is_ok());
    let mounted = reader.from_fs("a file system").unwrap();
    assert_eq!(mounted.counter, 0);
    assert!(mounted.contains("HKCR"));
    let dummy = RegReader {};
    assert!(dummy.from_file(()).is_ok());
    assert!(dummy.from_fs(()).is_ok());
}

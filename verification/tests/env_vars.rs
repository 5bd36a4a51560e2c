use forensic_rs::environment::{interpolate_env_vars, UserEnvVars};
use forensic_rs::err::ForensicError;
use forensic_rs::traits::registry::extra::env_vars::{
    expand_system_root, get_env_vars_of_users, home_vars, reg_value, system_drive, text_or_default,
};
use forensic_rs::traits::registry::{RegHiveKey, RegValue, RegistryReader};
use forensic_rs::utils::testing::TestingRegistry;
use forensic_rs::utils::win::csidl::{csidl_value, interpolate_csidl_path};

const PROFILE_LIST: &str = "HKLM\\SOFTWARE\\Microsoft\\Windows NT\\CurrentVersion\\ProfileList";
const TEST_USER: &str = "S-1-5-21-1366093794-4292800403-1155380978-513";

fn vars(entries: &[(&str, &str)]) -> UserEnvVars {
    let mut map = UserEnvVars::new();
    for (name, value) in entries {
        map.insert(name.to_string(), value.to_string());
    }
    map
}

fn registry_with_profiles(profiles: &[(&str, &str)]) -> TestingRegistry {
    let mut reg = TestingRegistry::new();
    for (sid, path) in profiles {
        reg.add_value(
            &format!("{}\\{}", PROFILE_LIST, sid),
            "ProfileImagePath",
            RegValue::ExpandSZ(path.to_string()),
        );
    }
    reg
}

fn var<'a>(env: &'a UserEnvVars, name: &str) -> &'a str {
    env.get(name).unwrap_or_else(|| panic!("{} is not set", name)).as_str()
}

#[test]
fn chained_placeholders_are_followed() {
    let env = vars(&[("SystemRoot", "%windir%"), ("windir", "C:\\Windows")]);
    let mut out = String::new();
    assert_eq!(interpolate_env_vars("%SystemRoot%\\System32", &env, &mut out), Some(()));
    assert_eq!(out, "C:\\Windows\\System32");
}

#[test]
fn interpolation_appends_to_what_is_there() {
    let env = vars(&[("A", "x")]);
    let mut out = "keep:".to_string();
    assert_eq!(interpolate_env_vars("%A%\\y", &env, &mut out), Some(()));
    assert_eq!(out, "keep:x\\y");
    assert_eq!(interpolate_env_vars("plain\\%A%", &env, &mut out), Some(()));
    assert_eq!(out, "keep:x\\yplain\\%A%");
    assert_eq!(interpolate_env_vars("", &env, &mut out), Some(()));
    assert_eq!(out, "keep:x\\yplain\\%A%");
    assert_eq!(interpolate_env_vars("%A%", &env, &mut out), Some(()));
    assert_eq!(out, "keep:x\\yplain\\%A%x");
}

#[test]
fn interpolation_has_no_result_for_an_unknown_or_open_placeholder() {
    let env = vars(&[("A", "x"), ("B", "%C%\\tail")]);
    let mut out = "before".to_string();
    assert_eq!(interpolate_env_vars("%MISSING%\\y", &env, &mut out), None);
    assert_eq!(interpolate_env_vars("%A", &env, &mut out), None);
    assert_eq!(interpolate_env_vars("%", &env, &mut out), None);
    assert_eq!(interpolate_env_vars("%a%", &env, &mut out), None);
    // The value of B names a variable that is not there.
    assert_eq!(interpolate_env_vars("%B%", &env, &mut out), None);
    assert_eq!(out, "before");
}

#[test]
fn interpolation_stops_on_a_circle_of_variables() {
    let env = vars(&[("A", "%B%\\a"), ("B", "%A%\\b")]);
    let mut out = String::new();
    assert_eq!(interpolate_env_vars("%A%", &env, &mut out), None);
    assert_eq!(out, "");
    let itself = vars(&[("X", "%X%")]);
    assert_eq!(interpolate_env_vars("%X%", &itself, &mut out), None);
}

#[test]
fn interpolation_follows_a_chain_as_long_as_the_table() {
    let env = vars(&[("A", "%B%1"), ("B", "%C%2"), ("C", "%D%3"), ("D", "end")]);
    let mut out = String::new();
    assert_eq!(interpolate_env_vars("%A%0", &env, &mut out), Some(()));
    assert_eq!(out, "end3210");
}

#[test]
fn should_interpolate_complex_env_vars_with_csidl() {
    let env_vars = {
        let mut map = UserEnvVars::new();
        map.insert("APPDATA".into(), "C:\\ProgramData".into());
        map.insert("LOCALAPPDATA".into(), "%USERPROFILE%\\AppData\\Local".into());
        map.insert("ProgramFiles".into(), "C:\\Program Files".into());
        map.insert("USERPROFILE".into(), "C:\\Users\\tester".into());
        map
    };
    let mut pth = r"{6D809377-6AF0-444B-8957-A3773F02200E}\Electronic Arts\EA Desktop\EA Desktop\EADesktop.exe".to_string();
    let interpolated = interpolate_csidl_path(&mut pth, &env_vars).unwrap();
    assert_eq!(
        r"C:\Program Files\Electronic Arts\EA Desktop\EA Desktop\EADesktop.exe",
        interpolated
    );
    let mut pth = r"{B2C5E279-7ADD-439F-B28C-C41FE1BBF672}\Electronic Arts\EA Desktop\EA Desktop\EADesktop.exe".to_string();
    let interpolated = interpolate_csidl_path(&mut pth, &env_vars).unwrap();
    assert_eq!(
        r"C:\Users\tester\AppData\Local\Desktop\Electronic Arts\EA Desktop\EA Desktop\EADesktop.exe",
        interpolated
    );
}

fn csidl_path(pth: &str, env: &UserEnvVars) -> (Option<String>, String) {
    let mut pth = pth.to_string();
    let found = interpolate_csidl_path(&mut pth, env);
    (found, pth)
}

#[test]
fn csidl_is_found_in_small_letters_too() {
    let env = vars(&[("windir", "C:\\Windows")]);
    assert_eq!(
        csidl_path("{fd228cb7-ae11-4ae3-864c-16f3910ab8fe}\\arial.ttf", &env).0,
        Some("C:\\Windows\\Fonts\\arial.ttf".to_string())
    );
    assert_eq!(
        csidl_path("{F38BF404-1D43-42F2-9305-67DE0B28FC23}", &env).0,
        Some("C:\\Windows".to_string())
    );
}

#[test]
fn csidl_identifier_is_put_in_capitals_in_the_path_itself() {
    let env = vars(&[("windir", "C:\\Windows")]);
    let (found, pth) = csidl_path("{fd228cb7-ae11-4ae3-864c-16f3910ab8fe}\\arial.ttf", &env);
    assert_eq!(found, Some("C:\\Windows\\Fonts\\arial.ttf".to_string()));
    assert_eq!(pth, "{FD228CB7-AE11-4AE3-864C-16F3910AB8FE}\\arial.ttf");
    // Also where the folder is not known; what follows the brace stays.
    let (found, pth) = csidl_path("{abc}\\def}", &env);
    assert_eq!(found, None);
    assert_eq!(pth, "{ABC}\\def}");
    // Not where the brace is not closed, or the path begins otherwise.
    assert_eq!(csidl_path("{abc", &env), (None, "{abc".to_string()));
    assert_eq!(csidl_path("x{abc}", &env), (Some("x{abc}".to_string()), "x{abc}".to_string()));
}

#[test]
fn csidl_path_without_a_result() {
    let env = vars(&[("windir", "C:\\Windows")]);
    // Not a known folder.
    assert_eq!(csidl_path("{00000000-0000-0000-0000-000000000000}\\x", &env).0, None);
    // The brace is not closed.
    assert_eq!(csidl_path("{FD228CB7-AE11-4AE3-864C-16F3910AB8FE", &env).0, None);
    // The folder needs a variable that is not set.
    assert_eq!(csidl_path("{B4BFCC3A-DB2C-424C-B029-7FE99A87C641}\\x", &env).0, None);
    // A path without a brace at its start stays as it is.
    assert_eq!(csidl_path("C:\\{x}", &env).0, Some("C:\\{x}".to_string()));
    assert_eq!(csidl_path("", &env).0, Some(String::new()));
}

#[test]
fn program_files_has_its_default_for_every_user() {
    let mut reg = registry_with_profiles(&[
        ("S-1-5-21-1-2-3-1001", "C:\\Users\\alice"),
        ("S-1-5-21-1-2-3-1002", "D:\\Profiles\\bob"),
    ]);
    let env = get_env_vars_of_users(&mut reg).unwrap();
    assert_eq!(env.len(), 2);
    for sid in ["S-1-5-21-1-2-3-1001", "S-1-5-21-1-2-3-1002"] {
        let user = env.get(sid).unwrap();
        assert_eq!(var(user, "ProgramFiles"), "C:\\Program Files");
        assert_eq!(var(user, "ProgramFiles(x86)"), "C:\\Program Files (x86)");
        assert_eq!(var(user, "ProgramW6432"), "C:\\Program Files");
        assert_eq!(var(user, "ProgramData"), "C:\\ProgramData");
        assert_eq!(var(user, "SystemRoot"), "C:\\Windows");
        assert_eq!(var(user, "windir"), "C:\\Windows");
        assert_eq!(var(user, "SystemDrive"), "C:");
    }
    assert_eq!(var(env.get("S-1-5-21-1-2-3-1001").unwrap(), "USERPROFILE"), "C:\\Users\\alice");
    assert_eq!(var(env.get("S-1-5-21-1-2-3-1002").unwrap(), "USERPROFILE"), "D:\\Profiles\\bob");
}

#[test]
fn local_system_profile_also_stands_under_the_empty_name() {
    let mut reg = registry_with_profiles(&[(
        "S-1-5-18",
        "%systemroot%\\system32\\config\\systemprofile",
    )]);
    let env = get_env_vars_of_users(&mut reg).unwrap();
    assert_eq!(env.keys(), vec!["".to_string(), "S-1-5-18".to_string()]);
    let expected = "C:\\Windows\\system32\\config\\systemprofile";
    assert_eq!(var(env.get("S-1-5-18").unwrap(), "USERPROFILE"), expected);
    assert_eq!(var(env.get("").unwrap(), "USERPROFILE"), expected);
}

#[test]
fn machine_values_are_read_where_they_are_there() {
    let mut reg = registry_with_profiles(&[("S-1-5-21-1-2-3-1001", "%SystemRoot%\\Profiles\\carol")]);
    reg.add_value(
        "HKLM\\SOFTWARE\\Microsoft\\Windows NT\\CurrentVersion",
        "SystemRoot",
        RegValue::from_str("E:\\WinNT"),
    );
    reg.add_value(
        "HKLM\\SOFTWARE\\Microsoft\\Windows\\CurrentVersion",
        "ProgramFilesDir (x86)",
        RegValue::from_str("E:\\Programs (x86)"),
    );
    reg.add_value(
        "HKLM\\SOFTWARE\\Microsoft\\Windows\\CurrentVersion",
        "ProgramW6432Dir",
        RegValue::from_u32(5),
    );
    reg.add_value(
        "HKLM\\SOFTWARE\\Microsoft\\Windows\\CurrentVersion\\Explorer\\Shell Folders",
        "Common AppData",
        RegValue::MultiSZ(vec!["E:\\Data".to_string()]),
    );
    let env = get_env_vars_of_users(&mut reg).unwrap();
    let user = env.get("S-1-5-21-1-2-3-1001").unwrap();
    assert_eq!(var(user, "SystemRoot"), "E:\\WinNT");
    assert_eq!(var(user, "windir"), "E:\\WinNT");
    assert_eq!(var(user, "SystemDrive"), "E:");
    assert_eq!(var(user, "USERPROFILE"), "E:\\WinNT\\Profiles\\carol");
    assert_eq!(var(user, "ProgramFiles(x86)"), "E:\\Programs (x86)");
    // A value that holds no text counts as missing.
    assert_eq!(var(user, "ProgramW6432"), "C:\\Program Files");
    assert_eq!(var(user, "ProgramData"), "E:\\Data");
}

#[test]
fn user_values_are_read_from_the_keys_of_the_user() {
    let sid = "S-1-5-21-1-2-3-1001";
    let mut reg = registry_with_profiles(&[(sid, "C:\\Users\\dave")]);
    let shell = format!(
        "HKU\\{}\\Software\\Microsoft\\Windows\\CurrentVersion\\Explorer\\User Shell Folders",
        sid
    );
    reg.add_value(&shell, "AppData", RegValue::ExpandSZ("%USERPROFILE%\\Roam".to_string()));
    // The temporary folders are not looked for among the folders of the shell.
    reg.add_value(&shell, "TMP", RegValue::ExpandSZ("%USERPROFILE%\\S".to_string()));
    let env = get_env_vars_of_users(&mut reg).unwrap();
    let user = env.get(sid).unwrap();
    assert_eq!(var(user, "APPDATA"), "C:\\Users\\dave\\Roam");
    assert_eq!(var(user, "LOCALAPPDATA"), "C:\\Users\\dave\\AppData\\Local");
    // Without the Environment key the temporary folders have their default.
    assert_eq!(var(user, "TMP"), "C:\\Users\\dave\\AppData\\Local\\Temp");
    assert_eq!(var(user, "TEMP"), "C:\\Users\\dave\\AppData\\Local\\Temp");
    assert_eq!(var(user, "HOMEDRIVE"), "C:");
    assert_eq!(var(user, "HOMEPATH"), "\\Users\\dave");
    assert_eq!(var(user, "USERNAME"), "dave");
    assert_eq!(user.len(), 15);

    let own = format!("HKU\\{}\\Environment", sid);
    reg.add_value(&own, "TMP", RegValue::ExpandSZ("%USERPROFILE%\\T".to_string()));
    let env = get_env_vars_of_users(&mut reg).unwrap();
    let user = env.get(sid).unwrap();
    assert_eq!(var(user, "TMP"), "C:\\Users\\dave\\T");
    assert_eq!(var(user, "TEMP"), "C:\\Users\\dave\\AppData\\Local\\Temp");
    reg.add_value(&own, "TEMP", RegValue::from_str("D:\\Temp"));
    reg.add_value(&own, "TMP", RegValue::from_u32(7));
    let env = get_env_vars_of_users(&mut reg).unwrap();
    let user = env.get(sid).unwrap();
    assert_eq!(var(user, "TMP"), "C:\\Users\\dave\\AppData\\Local\\Temp");
    assert_eq!(var(user, "TEMP"), "D:\\Temp");
}

fn assert_user_defaults(user: &UserEnvVars, profile: &str, drive: &str, path: &str, name: &str) {
    assert_eq!(var(user, "USERPROFILE"), profile);
    assert_eq!(var(user, "LOCALAPPDATA"), format!("{}\\AppData\\Local", profile));
    assert_eq!(var(user, "APPDATA"), format!("{}\\AppData\\Roaming", profile));
    assert_eq!(var(user, "TMP"), format!("{}\\AppData\\Local\\Temp", profile));
    assert_eq!(var(user, "TEMP"), format!("{}\\AppData\\Local\\Temp", profile));
    assert_eq!(var(user, "HOMEDRIVE"), drive);
    assert_eq!(var(user, "HOMEPATH"), path);
    assert_eq!(var(user, "USERNAME"), name);
    assert_eq!(user.len(), 15);
}

#[test]
fn a_user_without_a_key_has_the_defaults_below_the_profile() {
    let sid = "S-1-5-21-1-2-3-1001";
    let mut reg = registry_with_profiles(&[(sid, "C:\\Users\\erin")]);
    let env = get_env_vars_of_users(&mut reg).unwrap();
    let user = env.get(sid).unwrap();
    assert_eq!(
        user.keys(),
        vec![
            "APPDATA",
            "HOMEDRIVE",
            "HOMEPATH",
            "LOCALAPPDATA",
            "ProgramData",
            "ProgramFiles",
            "ProgramFiles(x86)",
            "ProgramW6432",
            "SystemDrive",
            "SystemRoot",
            "TEMP",
            "TMP",
            "USERNAME",
            "USERPROFILE",
            "windir"
        ]
    );
    assert_user_defaults(user, "C:\\Users\\erin", "C:", "\\Users\\erin", "erin");
}

#[test]
fn a_user_without_the_key_of_the_shell_folders_has_the_defaults() {
    let sid = "S-1-5-21-1-2-3-1001";
    let mut reg = registry_with_profiles(&[(sid, "D:\\Profiles\\gina")]);
    // The key of the user stands, with neither of the two keys below it.
    reg.add_value(&format!("HKU\\{}\\Console", sid), "Flags", RegValue::from_u32(0));
    let env = get_env_vars_of_users(&mut reg).unwrap();
    assert_user_defaults(env.get(sid).unwrap(), "D:\\Profiles\\gina", "D:", "\\Profiles\\gina", "gina");
    // Only the key of the variables stands below it.
    let own = format!("HKU\\{}\\Environment", sid);
    reg.add_value(&own, "TEMP", RegValue::from_str("%USERPROFILE%\\tmp"));
    let env = get_env_vars_of_users(&mut reg).unwrap();
    let user = env.get(sid).unwrap();
    assert_eq!(var(user, "LOCALAPPDATA"), "D:\\Profiles\\gina\\AppData\\Local");
    assert_eq!(var(user, "APPDATA"), "D:\\Profiles\\gina\\AppData\\Roaming");
    assert_eq!(var(user, "TMP"), "D:\\Profiles\\gina\\AppData\\Local\\Temp");
    assert_eq!(var(user, "TEMP"), "D:\\Profiles\\gina\\tmp");
}

#[test]
fn profiles_that_cannot_be_read_are_skipped() {
    let mut reg = registry_with_profiles(&[("S-1-5-21-1-2-3-1001", "C:\\Users\\frank")]);
    // A key without the value, a value that is no text, and an empty path.
    reg.add_value(&format!("{}\\S-1-5-19", PROFILE_LIST), "Flags", RegValue::from_u32(0));
    reg.add_value(&format!("{}\\S-1-5-20", PROFILE_LIST), "ProfileImagePath", RegValue::from_u32(0));
    reg.add_value(&format!("{}\\S-1-5-21-9", PROFILE_LIST), "ProfileImagePath", RegValue::from_str(""));
    let env = get_env_vars_of_users(&mut reg).unwrap();
    assert_eq!(env.keys(), vec!["S-1-5-21-1-2-3-1001".to_string()]);
}

#[test]
fn without_the_profile_list_there_is_no_result() {
    let mut reg = TestingRegistry::new();
    let err = get_env_vars_of_users(&mut reg).unwrap_err();
    assert!(matches!(err, ForensicError::Missing(_)));
    // The store is as it was, and no handle of the attempt is in the way.
    assert!(reg.contains(&format!("HKU\\{}", TEST_USER)));
    let mut empty = TestingRegistry::empty();
    assert!(get_env_vars_of_users(&mut empty).is_err());
}

#[test]
fn an_empty_profile_list_gives_no_users() {
    let mut reg = TestingRegistry::new();
    reg.add_value(PROFILE_LIST, "Default", RegValue::from_str("x"));
    let env = get_env_vars_of_users(&mut reg).unwrap();
    assert_eq!(env.len(), 0);
}

#[test]
fn system_drive_is_the_first_two_characters() {
    assert_eq!(system_drive("C:\\Windows"), "C:");
    assert_eq!(system_drive("D:"), "D:");
    assert_eq!(system_drive("E"), "E");
    assert_eq!(system_drive(""), "C:");
}

#[test]
fn system_root_placeholder_is_replaced_in_both_spellings() {
    assert_eq!(expand_system_root("%systemroot%\\a".to_string(), "C:\\W"), "C:\\W\\a");
    assert_eq!(expand_system_root("%SystemRoot%\\a".to_string(), "C:\\W"), "C:\\W\\a");
    assert_eq!(expand_system_root("%SystemRoot%".to_string(), "C:\\W"), "C:\\W");
    assert_eq!(expand_system_root("%SYSTEMROOT%\\a".to_string(), "C:\\W"), "%SYSTEMROOT%\\a");
    assert_eq!(expand_system_root("x%SystemRoot%".to_string(), "C:\\W"), "x%SystemRoot%");
    assert_eq!(expand_system_root(String::new(), "C:\\W"), "");
}

#[test]
fn home_variables_of_long_and_short_profiles() {
    let (drive, path, name) = home_vars("C:\\Users\\Tester");
    assert_eq!((drive.as_str(), path.as_str(), name.as_str()), ("C:", "\\Users\\Tester", "Tester"));
    let (drive, path, name) = home_vars("D:\\x");
    assert_eq!((drive.as_str(), path.as_str(), name.as_str()), ("D:", "\\x", "x"));
    let (drive, path, name) = home_vars("name");
    assert_eq!((drive.as_str(), path.as_str(), name.as_str()), ("na", "me", "name"));
    // One rule for every profile: two characters, the rest, the last segment.
    let (drive, path, name) = home_vars("D:\\");
    assert_eq!((drive.as_str(), path.as_str(), name.as_str()), ("D:", "\\", ""));
    let (drive, path, name) = home_vars("\\ab");
    assert_eq!((drive.as_str(), path.as_str(), name.as_str()), ("\\a", "b", "ab"));
    let (drive, path, name) = home_vars("abc");
    assert_eq!((drive.as_str(), path.as_str(), name.as_str()), ("ab", "c", "abc"));
    let (drive, path, name) = home_vars("E:");
    assert_eq!((drive.as_str(), path.as_str(), name.as_str()), ("E:", "", "E:"));
    let (drive, path, name) = home_vars("x");
    assert_eq!((drive.as_str(), path.as_str(), name.as_str()), ("x", "", "x"));
    let (drive, path, name) = home_vars("");
    assert_eq!((drive.as_str(), path.as_str(), name.as_str()), ("", "", ""));
}

#[test]
fn text_or_default_takes_the_text_where_there_is_one() {
    assert_eq!(text_or_default(Ok(RegValue::from_str("v")), "d".to_string()), "v");
    assert_eq!(text_or_default(Ok(RegValue::from_u32(1)), "d".to_string()), "d");
    assert_eq!(text_or_default(Err(ForensicError::NoMoreData), "d".to_string()), "d");
}

#[test]
fn reg_value_reads_through_a_handle() {
    let mut reg = TestingRegistry::new();
    let user = reg.open_key(RegHiveKey::HkeyUsers, TEST_USER).unwrap();
    let key = reg.open_key(user, "Volatile Environment").unwrap();
    assert_eq!(reg_value(&reg, key, "USERDOMAIN", "none".to_string()), "TestMachine");
    assert_eq!(reg_value(&reg, key, "NOT THERE", "none".to_string()), "none");
    assert_eq!(reg_value(&reg, RegHiveKey::Hkey(99), "USERDOMAIN", "none".to_string()), "none");
}

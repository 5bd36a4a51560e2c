//! The environment variables that the users of a Windows system see,
//! reconstructed from its registry.
use crate::environment::{UserEnvVars, UsersEnvVars};
use crate::err::ForensicResult;
use crate::strmap::StrMap;
use crate::text::{after_last, char_len, find_after_last, slice, starts_with, str_eq};
use crate::traits::registry::{
    child_path, handles_kept, stored_value, RegData, RegHiveKey, RegValue, RegistryModel, RegistryReader, HKLM,
    HKU,
};
use vstd::prelude::*;
use vstd::string::*;

verus! {

/// The text of a value, or `default` where there is no value or it holds no
/// text.
pub open spec fn text_or(value: Option<RegData>, default: Seq<char>) -> Seq<char> {
    match value {
        Some(v) => match v.as_text() {
            Some(t) => t,
            None => default,
        },
        None => default,
    }
}

/// What a text that was read with a default can be, whatever the backend
/// returned: the default, or the text of the value that is stored.
pub open spec fn read_or_default(r: Seq<char>, stored: Option<RegData>, default: Seq<char>) -> bool {
    r == default || (stored is Some && stored->0.as_text() == Some(r))
}

/// The drive of the system: the first two characters of the system root,
/// and `C:` where the system root is empty.
pub open spec fn system_drive_of(system_root: Seq<char>) -> Seq<char> {
    if system_root.len() == 0 {
        "C:"@
    } else if system_root.len() < 2 {
        system_root
    } else {
        system_root.take(2)
    }
}

/// A path in which the placeholder for the system root at its start, in
/// either of its two spellings, is replaced by the system root.
pub open spec fn with_system_root(path: Seq<char>, system_root: Seq<char>) -> Seq<char> {
    if "%systemroot%"@.is_prefix_of(path) || "%SystemRoot%"@.is_prefix_of(path) {
        system_root + path.skip(12)
    } else {
        path
    }
}

/// A path in which the placeholder for the profile of the user at its start
/// is replaced by that profile.
pub open spec fn with_user_profile(path: Seq<char>, user_profile: Seq<char>) -> Seq<char> {
    if "%USERPROFILE%"@.is_prefix_of(path) {
        user_profile + path.skip(13)
    } else {
        path
    }
}

/// The drive of a profile: its first two characters, and all of it where
/// it has fewer.
pub open spec fn home_drive_of(user_profile: Seq<char>) -> Seq<char> {
    if user_profile.len() < 2 {
        user_profile
    } else {
        user_profile.take(2)
    }
}

/// The name of the user of a profile: its last segment, which is what
/// follows its last backslash, and all of it where it has none.
pub open spec fn user_name_of(user_profile: Seq<char>) -> Seq<char> {
    user_profile.skip(after_last(user_profile, '\\'))
}

/// The path of a profile on its drive: what follows its first two
/// characters.
pub open spec fn home_path_of(user_profile: Seq<char>) -> Seq<char> {
    if user_profile.len() < 2 {
        Seq::<char>::empty()
    } else {
        user_profile.skip(2)
    }
}

/// The text of what a query returned, or `default` where the query failed
/// or the value holds no text.
pub fn text_or_default(value: ForensicResult<RegValue>, default: String) -> (r: String)
    ensures
        r@ == text_or(
            match value {
                Ok(v) => Some(v@),
                Err(_) => None,
            },
            default@,
        ),
{
    match value {
        Ok(v) => match v.into_text() {
            Ok(t) => t,
            Err(_) => default,
        },
        Err(_) => default,
    }
}

/// The drive of the system whose root is `system_root`.
pub fn system_drive(system_root: &str) -> (r: String)
    ensures
        r@ == system_drive_of(system_root@),
{
    let n = char_len(system_root);
    if n == 0 {
        String::from_str("C:")
    } else if n < 2 {
        String::from_str(system_root)
    } else {
        String::from_str(slice(system_root, 0, 2))
    }
}

/// Replaces the placeholder for the system root at the start of a profile
/// path.
pub fn expand_system_root(profile_path: String, system_root: &str) -> (r: String)
    ensures
        r@ == with_system_root(profile_path@, system_root@),
{
    proof {
        reveal_strlit("%systemroot%");
        reveal_strlit("%SystemRoot%");
    }
    if starts_with(profile_path.as_str(), "%systemroot%") || starts_with(
        profile_path.as_str(),
        "%SystemRoot%",
    ) {
        let n = char_len(profile_path.as_str());
        let mut r = String::from_str(system_root);
        r.append(slice(profile_path.as_str(), 12, n));
        r
    } else {
        profile_path
    }
}

/// Replaces the placeholder for the profile of the user at the start of a
/// path.
fn replace_user_profile(txt: String, user_profile: &str) -> (r: String)
    ensures
        r@ == with_user_profile(txt@, user_profile@),
{
    proof {
        reveal_strlit("%USERPROFILE%");
    }
    if starts_with(txt.as_str(), "%USERPROFILE%") {
        let n = char_len(txt.as_str());
        let mut r = String::from_str(user_profile);
        r.append(slice(txt.as_str(), 13, n));
        r
    } else {
        txt
    }
}

/// `base` followed by `tail`.
fn concat2(base: &str, tail: &str) -> (r: String)
    ensures
        r@ == base@ + tail@,
{
    let mut r = String::from_str(base);
    r.append(tail);
    r
}

/// The drive, the path and the user name of a profile.
pub fn home_vars(user_profile: &str) -> (r: (String, String, String))
    ensures
        r.0@ == home_drive_of(user_profile@),
        r.1@ == home_path_of(user_profile@),
        r.2@ == user_name_of(user_profile@),
{
    let n = char_len(user_profile);
    let cut = find_after_last(user_profile, '\\');
    let username = String::from_str(slice(user_profile, cut, n));
    if n < 2 {
        (String::from_str(user_profile), String::new(), username)
    } else {
        let home_drive = String::from_str(slice(user_profile, 0, 2));
        let home_path = String::from_str(slice(user_profile, 2, n));
        (home_drive, home_path, username)
    }
}

/// What a backend keeps while it is queried: it stays in order, holds what
/// it held, knows the keys it knew and no other root, and has given out
/// `opened` handles at most.
pub open spec fn kept<R: RegistryReader>(before: &R, after: &R, opened: nat) -> bool {
    &&& after.inv()
    &&& after.store() == before.store()
    &&& after.exact() == before.exact()
    &&& handles_kept(before.handles(), after.handles())
    &&& forall|k: RegHiveKey|
        !(k is Hkey) && #[trigger] after.handles().contains_key(k) ==> before.handles().contains_key(
            k,
        )
    &&& after.handles_left() + opened >= before.handles_left()
}

/// What is kept over one stretch and over the next is kept over both.
pub proof fn lemma_kept_both<R: RegistryReader>(a: &R, b: &R, c: &R, first: nat, second: nat)
    requires
        kept(a, b, first),
        kept(b, c, second),
    ensures
        kept(a, c, first + second),
{
    assert forall|k: RegHiveKey| #[trigger] a.handles().contains_key(k) implies c.handles().contains_key(
        k,
    ) && c.handles()[k] == a.handles()[k] by {
        assert(b.handles().contains_key(k));
    }
    assert forall|k: RegHiveKey|
        !(k is Hkey) && #[trigger] c.handles().contains_key(k) implies a.handles().contains_key(
        k,
    ) by {
        assert(b.handles().contains_key(k));
    }
}

/// The value called `name` of the key that `key` designates.
pub open spec fn value_at_handle(
    store: RegistryModel,
    handles: Map<RegHiveKey, Seq<char>>,
    key: RegHiveKey,
    name: Seq<char>,
) -> Option<RegData> {
    if handles.contains_key(key) && store.values.contains_key((handles[key], name)) {
        Some(store.values[(handles[key], name)])
    } else {
        None
    }
}

/// The value called `name` of the key at `path`.
pub open spec fn value_at_path(store: RegistryModel, path: Seq<char>, name: Seq<char>) -> Option<
    RegData,
> {
    if store.values.contains_key((path, name)) {
        Some(store.values[(path, name)])
    } else {
        None
    }
}

/// The key, below the local machine hive, that holds the folders of the
/// shell.
pub open spec fn shell_folders_key() -> Seq<char> {
    "SOFTWARE\\Microsoft\\Windows\\CurrentVersion\\Explorer\\Shell Folders"@
}

/// The key, below the local machine hive, that describes Windows.
pub open spec fn windows_key() -> Seq<char> {
    "SOFTWARE\\Microsoft\\Windows\\CurrentVersion"@
}

/// The key, below the local machine hive, that lists the profiles.
pub open spec fn profile_list_key() -> Seq<char> {
    "SOFTWARE\\Microsoft\\Windows NT\\CurrentVersion\\ProfileList"@
}

/// The key, below the key of a user, that holds the folders of the shell of
/// that user.
pub open spec fn user_shell_folders_key() -> Seq<char> {
    "Software\\Microsoft\\Windows\\CurrentVersion\\Explorer\\User Shell Folders"@
}

/// The root of the system: the value `SystemRoot` of the key that describes
/// the installed version, and `C:\Windows` where that cannot be read.
pub open spec fn system_root_of(store: RegistryModel, handles: Map<RegHiveKey, Seq<char>>) -> Seq<
    char,
> {
    text_or(
        stored_value(store, handles, HKLM, crate::traits::registry::current_version_key(), "SystemRoot"@),
        "C:\\Windows"@,
    )
}

/// The folder of the data of all programs, and `C:\ProgramData` where that
/// cannot be read.
pub open spec fn program_data_of(store: RegistryModel, handles: Map<RegHiveKey, Seq<char>>) -> Seq<
    char,
> {
    text_or(
        stored_value(store, handles, HKLM, shell_folders_key(), "Common AppData"@),
        "C:\\ProgramData"@,
    )
}

/// The folders of the programs, as plain values.
pub struct ProgramFilesView {
    pub program_files: Seq<char>,
    pub program_files_86: Seq<char>,
    pub program_files_w6432: Seq<char>,
}

/// The folders of the programs: each is read from the key that describes
/// Windows, and has its default where it cannot be read. The first of them
/// is looked for under the name `ProgrammFilesDir`.
pub open spec fn program_files_of(
    store: RegistryModel,
    handles: Map<RegHiveKey, Seq<char>>,
) -> ProgramFilesView {
    ProgramFilesView {
        program_files: text_or(
            stored_value(store, handles, HKLM, windows_key(), "ProgrammFilesDir"@),
            "C:\\Program Files"@,
        ),
        program_files_86: text_or(
            stored_value(store, handles, HKLM, windows_key(), "ProgramFilesDir (x86)"@),
            "C:\\Program Files (x86)"@,
        ),
        program_files_w6432: text_or(
            stored_value(store, handles, HKLM, windows_key(), "ProgramW6432Dir"@),
            "C:\\Program Files"@,
        ),
    }
}

/// What the folders of the programs can be, whatever the backend
/// returned: each is its default, or the text that is stored for it.
pub open spec fn program_files_read(
    r: ProgramFilesView,
    store: RegistryModel,
    handles: Map<RegHiveKey, Seq<char>>,
) -> bool {
    &&& read_or_default(
        r.program_files,
        stored_value(store, handles, HKLM, windows_key(), "ProgrammFilesDir"@),
        "C:\\Program Files"@,
    )
    &&& read_or_default(
        r.program_files_86,
        stored_value(store, handles, HKLM, windows_key(), "ProgramFilesDir (x86)"@),
        "C:\\Program Files (x86)"@,
    )
    &&& read_or_default(
        r.program_files_w6432,
        stored_value(store, handles, HKLM, windows_key(), "ProgramW6432Dir"@),
        "C:\\Program Files"@,
    )
}

/// The folders of the programs.
pub struct ProgramFiles {
    pub program_files: String,
    pub program_files_86: String,
    pub program_files_w6432: String,
}

impl View for ProgramFiles {
    type V = ProgramFilesView;

    open spec fn view(&self) -> ProgramFilesView {
        ProgramFilesView {
            program_files: self.program_files@,
            program_files_86: self.program_files_86@,
            program_files_w6432: self.program_files_w6432@,
        }
    }
}

/// The text of the value called `value` of the key that `key` designates,
/// or `default` where it cannot be read or holds no text.
pub fn reg_value<R: RegistryReader>(reg: &R, key: RegHiveKey, value: &str, default: String) -> (r:
    String)
    requires
        reg.inv(),
    ensures
        read_or_default(r@, value_at_handle(reg.store(), reg.handles(), key, value@), default@),
        reg.exact() ==> r@ == text_or(
            value_at_handle(reg.store(), reg.handles(), key, value@),
            default@,
        ),
{
    text_or_default(reg.read_value(key, value), default)
}

/// The text of the value called `value_name` of the key called `key_name`
/// below the local machine hive, or `default` where it cannot be read or
/// holds no text.
fn machine_text<R: RegistryReader>(
    reg: &mut R,
    key_name: &str,
    value_name: &str,
    default: &str,
) -> (r: String)
    requires
        old(reg).inv(),
    ensures
        kept(old(reg), final(reg), 1),
        read_or_default(
            r@,
            stored_value(old(reg).store(), old(reg).handles(), HKLM, key_name@, value_name@),
            default@,
        ),
        old(reg).exact() && old(reg).handles_left() > 0 ==> r@ == text_or(
            stored_value(old(reg).store(), old(reg).handles(), HKLM, key_name@, value_name@),
            default@,
        ),
{
    let key = match reg.open_key(HKLM, key_name) {
        Ok(v) => v,
        Err(_) => {
            return String::from_str(default);
        },
    };
    let value = reg_value(&*reg, key, value_name, String::from_str(default));
    reg.close_key(key);
    value
}

/// The root of the system, as the registry tells it.
fn system_root<R: RegistryReader>(reg: &mut R) -> (r: String)
    requires
        old(reg).inv(),
    ensures
        kept(old(reg), final(reg), 1),
        read_or_default(
            r@,
            stored_value(
                old(reg).store(),
                old(reg).handles(),
                HKLM,
                crate::traits::registry::current_version_key(),
                "SystemRoot"@,
            ),
            "C:\\Windows"@,
        ),
        old(reg).exact() && old(reg).handles_left() > 0 ==> r@ == system_root_of(
            old(reg).store(),
            old(reg).handles(),
        ),
{
    machine_text(reg, "SOFTWARE\\Microsoft\\Windows NT\\CurrentVersion", "SystemRoot", "C:\\Windows")
}

/// The folder of the data of all programs, as the registry tells it.
fn program_data<R: RegistryReader>(reg: &mut R) -> (r: String)
    requires
        old(reg).inv(),
    ensures
        kept(old(reg), final(reg), 1),
        read_or_default(
            r@,
            stored_value(
                old(reg).store(),
                old(reg).handles(),
                HKLM,
                shell_folders_key(),
                "Common AppData"@,
            ),
            "C:\\ProgramData"@,
        ),
        old(reg).exact() && old(reg).handles_left() > 0 ==> r@ == program_data_of(
            old(reg).store(),
            old(reg).handles(),
        ),
{
    machine_text(
        reg,
        "SOFTWARE\\Microsoft\\Windows\\CurrentVersion\\Explorer\\Shell Folders",
        "Common AppData",
        "C:\\ProgramData",
    )
}

/// The folders of the programs, as the registry tells them.
fn program_files<R: RegistryReader>(reg: &mut R) -> (r: ProgramFiles)
    requires
        old(reg).inv(),
    ensures
        kept(old(reg), final(reg), 1),
        program_files_read(r@, old(reg).store(), old(reg).handles()),
        old(reg).exact() && old(reg).handles_left() > 0 ==> r@ == program_files_of(
            old(reg).store(),
            old(reg).handles(),
        ),
{
    let key = match reg.open_key(HKLM, "SOFTWARE\\Microsoft\\Windows\\CurrentVersion") {
        Ok(v) => v,
        Err(_) => {
            return ProgramFiles {
                program_files: String::from_str("C:\\Program Files"),
                program_files_86: String::from_str("C:\\Program Files (x86)"),
                program_files_w6432: String::from_str("C:\\Program Files"),
            };
        },
    };
    let program_files = reg_value(
        &*reg,
        key,
        "ProgrammFilesDir",
        String::from_str("C:\\Program Files"),
    );
    let program_files_86 = reg_value(
        &*reg,
        key,
        "ProgramFilesDir (x86)",
        String::from_str("C:\\Program Files (x86)"),
    );
    let program_files_w6432 = reg_value(
        &*reg,
        key,
        "ProgramW6432Dir",
        String::from_str("C:\\Program Files"),
    );
    reg.close_key(key);
    ProgramFiles { program_files, program_files_86, program_files_w6432 }
}

/// A map of texts with each text as its characters.
pub open spec fn views_of(m: Map<Seq<char>, String>) -> Map<Seq<char>, Seq<char>> {
    Map::new(|k: Seq<char>| m.contains_key(k), |k: Seq<char>| m[k]@)
}

/// The SID of the local system account.
pub open spec fn local_system_sid() -> Seq<char> {
    "S-1-5-18"@
}

/// The path at which the list of profiles stands, where the local machine
/// hive is known.
pub open spec fn profile_list_path(handles: Map<RegHiveKey, Seq<char>>) -> Seq<char> {
    child_path(handles[HKLM], profile_list_key())
}

/// The SIDs under which profiles are listed, in the order of their
/// enumeration: none where the local machine hive is not known or the list
/// cannot be enumerated.
pub open spec fn listed_sids(store: RegistryModel, handles: Map<RegHiveKey, Seq<char>>) -> Seq<
    Seq<char>,
> {
    if handles.contains_key(HKLM) && store.subkeys.contains_key(profile_list_path(handles)) {
        store.subkeys[profile_list_path(handles)]
    } else {
        Seq::<Seq<char>>::empty()
    }
}

/// The profile path listed under `sid`: the text of `ProfileImagePath` with
/// the system root filled in. There is none where the key or the value is
/// not there, or where the path comes out empty.
pub open spec fn profile_of(
    store: RegistryModel,
    list_path: Seq<char>,
    sid: Seq<char>,
    system_root: Seq<char>,
) -> Option<Seq<char>> {
    let key_path = child_path(list_path, sid);
    if store.keys.contains(key_path) && store.values.contains_key(
        (key_path, "ProfileImagePath"@),
    ) {
        let path = with_system_root(
            text_or(Some(store.values[(key_path, "ProfileImagePath"@)]), Seq::<char>::empty()),
            system_root,
        );
        if path.len() > 0 {
            Some(path)
        } else {
            None
        }
    } else {
        None
    }
}

/// The profiles listed under the given SIDs, by SID. The profile of the
/// local system account also stands under the empty name.
pub open spec fn profiles_of(
    store: RegistryModel,
    list_path: Seq<char>,
    sids: Seq<Seq<char>>,
    system_root: Seq<char>,
) -> Map<Seq<char>, Seq<char>>
    decreases sids.len(),
{
    if sids.len() == 0 {
        Map::<Seq<char>, Seq<char>>::empty()
    } else {
        let before = profiles_of(store, list_path, sids.drop_last(), system_root);
        match profile_of(store, list_path, sids.last(), system_root) {
            Some(path) => if sids.last() == local_system_sid() {
                before.insert(Seq::<char>::empty(), path).insert(sids.last(), path)
            } else {
                before.insert(sids.last(), path)
            },
            None => before,
        }
    }
}

/// All profiles of the system by SID: none at all where the list of
/// profiles cannot be opened.
pub open spec fn all_profiles_of(
    store: RegistryModel,
    handles: Map<RegHiveKey, Seq<char>>,
    system_root: Seq<char>,
) -> Option<Map<Seq<char>, Seq<char>>> {
    if handles.contains_key(HKLM) && store.keys.contains(profile_list_path(handles)) {
        Some(
            profiles_of(
                store,
                profile_list_path(handles),
                listed_sids(store, handles),
                system_root,
            ),
        )
    } else {
        None
    }
}

/// `profile` is a profile that is listed for `sid`: the list of profiles
/// stands and names `sid` with this profile, or `sid` is the empty name and
/// the list names the local system account with this profile.
pub open spec fn listed_profile(
    store: RegistryModel,
    handles: Map<RegHiveKey, Seq<char>>,
    sid: Seq<char>,
    system_root: Seq<char>,
    profile: Seq<char>,
) -> bool {
    let list_path = profile_list_path(handles);
    let listed = listed_sids(store, handles);
    &&& handles.contains_key(HKLM)
    &&& store.keys.contains(list_path)
    &&& (listed.contains(sid) && profile_of(store, list_path, sid, system_root) == Some(profile))
        || (sid.len() == 0 && listed.contains(local_system_sid()) && profile_of(
        store,
        list_path,
        local_system_sid(),
        system_root,
    ) == Some(profile))
}

/// The profile of the local system account also stands under the empty
/// name; it is the same profile where the list has no key with the empty
/// name.
pub open spec fn alias_stands(profiles: Map<Seq<char>, Seq<char>>, listed: Seq<Seq<char>>) -> bool {
    profiles.contains_key(local_system_sid()) ==> {
        &&& profiles.contains_key(Seq::<char>::empty())
        &&& !listed.contains(Seq::<char>::empty()) ==> profiles[Seq::<char>::empty()]
            == profiles[local_system_sid()]
    }
}

/// The profile path of every user that the registry lists, by SID.
fn list_all_profiles<R: RegistryReader>(reg: &mut R, system_root: &str) -> (r: ForensicResult<
    StrMap<String>,
>)
    requires
        old(reg).inv(),
    ensures
        kept(old(reg), final(reg), 1 + listed_sids(old(reg).store(), old(reg).handles()).len()),
        r matches Ok(m) ==> m.wf() && m.names().len() <= 2 * listed_sids(
            old(reg).store(),
            old(reg).handles(),
        ).len(),
        r matches Ok(m) ==> forall|sid: Seq<char>| #[trigger]
            m.map().contains_key(sid) ==> m.map()[sid]@.len() > 0 && listed_profile(
                old(reg).store(),
                old(reg).handles(),
                sid,
                system_root@,
                m.map()[sid]@,
            ),
        r matches Ok(m) ==> alias_stands(
            views_of(m.map()),
            listed_sids(old(reg).store(), old(reg).handles()),
        ),
        old(reg).exact() && old(reg).handles_left() > listed_sids(
            old(reg).store(),
            old(reg).handles(),
        ).len() ==> match r {
            Ok(m) => all_profiles_of(old(reg).store(), old(reg).handles(), system_root@) == Some(
                views_of(m.map()),
            ),
            Err(e) => all_profiles_of(old(reg).store(), old(reg).handles(), system_root@) is None
                && e@ is Missing,
        },
{
    let ghost store = reg.store();
    let ghost handles = reg.handles();
    let ghost exact = reg.exact() && reg.handles_left() > listed_sids(store, handles).len();
    let ghost was_exact = reg.exact();
    let ghost left = reg.handles_left();
    let ghost list_path = profile_list_path(handles);
    let key = reg.open_key(HKLM, "SOFTWARE\\Microsoft\\Windows NT\\CurrentVersion\\ProfileList")?;
    let users = match reg.enumerate_keys(key) {
        Ok(v) => v,
        Err(_) => Vec::new(),
    };
    let ghost sids = crate::traits::registry::texts(users@);
    let mut map: StrMap<String> = StrMap::new();
    let mut i: usize = 0;
    proof {
        reveal_strlit("S-1-5-18");
        assert(sids.take(0) =~= Seq::<Seq<char>>::empty());
        assert(views_of(map.map()) =~= Map::<Seq<char>, Seq<char>>::empty());
        assert(exact ==> sids == listed_sids(store, handles));
        assert(sids.len() == 0 || sids == listed_sids(store, handles));
    }
    while i < users.len()
        invariant
            i <= users.len(),
            sids == crate::traits::registry::texts(users@),
            sids.len() == 0 || sids == listed_sids(store, handles),
            exact ==> sids == listed_sids(store, handles),
            handles.contains_key(HKLM),
            list_path == profile_list_path(handles),
            store.keys.contains(list_path),
            reg.inv(),
            reg.store() == store,
            reg.exact() == was_exact,
            exact ==> was_exact,
            handles_kept(handles, reg.handles()),
            reg.handles().contains_key(key),
            reg.handles()[key] == list_path,
            forall|k: RegHiveKey|
                !(k is Hkey) && #[trigger] reg.handles().contains_key(k) ==> handles.contains_key(k),
            reg.handles_left() + 1 + i >= left,
            exact ==> left > listed_sids(store, handles).len(),
            map.wf(),
            map.names().len() <= 2 * i,
            forall|sid: Seq<char>| #[trigger]
                map.map().contains_key(sid) ==> map.map()[sid]@.len() > 0 && listed_profile(
                    store,
                    handles,
                    sid,
                    system_root@,
                    map.map()[sid]@,
                ),
            map.map().contains_key(local_system_sid()) ==> map.map().contains_key(
                Seq::<char>::empty(),
            ),
            (forall|j: int| 0 <= j < i ==> (#[trigger] sids[j]).len() != 0)
                && map.map().contains_key(local_system_sid()) ==> map.map()[Seq::<char>::empty()]@
                == map.map()[local_system_sid()]@,
            exact ==> views_of(map.map()) == profiles_of(
                store,
                list_path,
                sids.take(i as int),
                system_root@,
            ),
        decreases users.len() - i,
    {
        let user_sid = &users[i];
        proof {
            let now = sids.take(i + 1);
            assert(now.drop_last() =~= sids.take(i as int));
            assert(now.last() == user_sid@);
        }
        let ghost was = map;
        let ghost known = reg.handles();
        match reg.open_key(key, user_sid.as_str()) {
            Ok(user_key) => {
                assert forall|k: RegHiveKey| #[trigger] handles.contains_key(k) implies reg.handles().contains_key(
                    k,
                ) && reg.handles()[k] == handles[k] by {
                    assert(known.contains_key(k));
                }
                match reg.read_value(user_key, "ProfileImagePath") {
                    Ok(v) => {
                        let raw = match v.into_text() {
                            Ok(t) => t,
                            Err(_) => String::new(),
                        };
                        let profile_path = expand_system_root(raw, system_root);
                        if !profile_path.as_str().is_empty() {
                            if str_eq(user_sid.as_str(), "S-1-5-18") {
                                map.insert(String::new(), profile_path.clone());
                            }
                            map.insert(user_sid.clone(), profile_path);
                            proof {
                                let path = profile_path@;
                                reveal_strlit("S-1-5-18");
                                assert(sids[i as int] == user_sid@);
                                assert(sids.contains(user_sid@));
                                assert(profile_of(store, list_path, user_sid@, system_root@)
                                    == Some(path));
                                if user_sid@ == local_system_sid() {
                                    assert(views_of(map.map()) =~= views_of(was.map()).insert(
                                        Seq::<char>::empty(),
                                        path,
                                    ).insert(user_sid@, path));
                                } else {
                                    assert(views_of(map.map()) =~= views_of(was.map()).insert(
                                        user_sid@,
                                        path,
                                    ));
                                }
                            }
                        }
                    },
                    Err(_) => {},
                }
                reg.close_key(user_key);
            },
            Err(_) => {},
        }
        i = i + 1;
    }
    reg.close_key(key);
    proof {
        assert(sids.take(users.len() as int) =~= sids);
        let listed = listed_sids(store, handles);
        if map.map().contains_key(local_system_sid()) && !listed.contains(Seq::<char>::empty()) {
            assert forall|j: int| 0 <= j < sids.len() implies (#[trigger] sids[j]).len() != 0 by {
                assert(listed.contains(sids[j]));
                assert(sids[j] =~= Seq::<char>::empty() ==> false);
            }
        }
    }
    Ok(map)
}

/// The key, below the key of a user, that holds the variables of that
/// user.
pub open spec fn environment_key() -> Seq<char> {
    "Environment"@
}

/// The key called `key` stands below the key of the user `sid`.
pub open spec fn user_key_stands(
    store: RegistryModel,
    handles: Map<RegHiveKey, Seq<char>>,
    sid: Seq<char>,
    key: Seq<char>,
) -> bool {
    let user_path = child_path(handles[HKU], sid);
    handles.contains_key(HKU) && store.keys.contains(user_path) && store.keys.contains(
        child_path(user_path, key),
    )
}

/// The value called `name` of the key called `key` below the key of the
/// user `sid`, where the users hive is known, both keys stand and there is
/// such a value.
pub open spec fn user_value(
    store: RegistryModel,
    handles: Map<RegHiveKey, Seq<char>>,
    sid: Seq<char>,
    key: Seq<char>,
    name: Seq<char>,
) -> Option<RegData> {
    if user_key_stands(store, handles, sid, key) {
        value_at_path(store, child_path(child_path(handles[HKU], sid), key), name)
    } else {
        None
    }
}

/// A folder that is read from the key called `key` below the key that
/// `base` designates. Where that key stands, it is the text of the value
/// called `name`, or `default` where there is no such text, with the profile
/// filled in. Where the key does not stand, it is `default` as it is.
pub open spec fn folder_below(
    store: RegistryModel,
    handles: Map<RegHiveKey, Seq<char>>,
    base: RegHiveKey,
    key: Seq<char>,
    name: Seq<char>,
    default: Seq<char>,
    profile: Seq<char>,
) -> Seq<char> {
    if handles.contains_key(base) && store.keys.contains(child_path(handles[base], key)) {
        with_user_profile(text_or(stored_value(store, handles, base, key, name), default), profile)
    } else {
        default
    }
}

/// A folder of the user `sid`, read from the key called `key` below the
/// key of the user. Where that key stands, it is the text of the value
/// called `name`, or `default` where there is no such text, with the profile
/// filled in. Where the key of the user or the key below it does not stand,
/// it is `default` as it is.
pub open spec fn user_folder_of(
    store: RegistryModel,
    handles: Map<RegHiveKey, Seq<char>>,
    sid: Seq<char>,
    key: Seq<char>,
    name: Seq<char>,
    default: Seq<char>,
    profile: Seq<char>,
) -> Seq<char> {
    if user_key_stands(store, handles, sid, key) {
        with_user_profile(text_or(user_value(store, handles, sid, key, name), default), profile)
    } else {
        default
    }
}

/// What a folder of a user can be, whatever the backend returned: the
/// default, or the default or the text that is stored with the profile
/// filled in.
pub open spec fn user_folder_read(
    r: Seq<char>,
    stored: Option<RegData>,
    default: Seq<char>,
    profile: Seq<char>,
) -> bool {
    ||| r == default
    ||| r == with_user_profile(default, profile)
    ||| (stored is Some && stored->0.as_text() is Some && r == with_user_profile(
        stored->0.as_text()->0,
        profile,
    ))
}

/// The variables that are read for one user, in the order in which they are
/// set. The folders of the user's data are read from the key of the folders
/// of the shell, the temporary folders from the key of the user's variables;
/// each has its default below the profile where it cannot be read.
pub open spec fn user_vars_of(
    store: RegistryModel,
    handles: Map<RegHiveKey, Seq<char>>,
    sid: Seq<char>,
    profile: Seq<char>,
) -> Seq<(Seq<char>, Seq<char>)> {
    let shell = user_shell_folders_key();
    let temp_default = profile + "\\AppData\\Local\\Temp"@;
    seq![
        (
            "LOCALAPPDATA"@,
            user_folder_of(
                store,
                handles,
                sid,
                shell,
                "Local AppData"@,
                profile + "\\AppData\\Local"@,
                profile,
            ),
        ),
        (
            "APPDATA"@,
            user_folder_of(
                store,
                handles,
                sid,
                shell,
                "AppData"@,
                profile + "\\AppData\\Roaming"@,
                profile,
            ),
        ),
        ("TMP"@, user_folder_of(store, handles, sid, environment_key(), "TMP"@, temp_default, profile)),
        (
            "TEMP"@,
            user_folder_of(store, handles, sid, environment_key(), "TEMP"@, temp_default, profile),
        ),
        ("HOMEPATH"@, home_path_of(profile)),
        ("HOMEDRIVE"@, home_drive_of(profile)),
        ("USERNAME"@, user_name_of(profile)),
    ]
}

/// What the variables that are read for a user are, whatever the backend
/// returned: seven variables under their names, in this order. Each folder
/// is its default below the profile or what is stored for it, with the
/// profile filled in; the last three are worked out from the profile.
pub open spec fn user_vars_read(
    vars: Seq<(Seq<char>, Seq<char>)>,
    store: RegistryModel,
    handles: Map<RegHiveKey, Seq<char>>,
    sid: Seq<char>,
    profile: Seq<char>,
) -> bool {
    let shell = user_shell_folders_key();
    let temp_default = profile + "\\AppData\\Local\\Temp"@;
    &&& vars.len() == 7
    &&& vars[0].0 == "LOCALAPPDATA"@
    &&& user_folder_read(
        vars[0].1,
        user_value(store, handles, sid, shell, "Local AppData"@),
        profile + "\\AppData\\Local"@,
        profile,
    )
    &&& vars[1].0 == "APPDATA"@
    &&& user_folder_read(
        vars[1].1,
        user_value(store, handles, sid, shell, "AppData"@),
        profile + "\\AppData\\Roaming"@,
        profile,
    )
    &&& vars[2].0 == "TMP"@
    &&& user_folder_read(
        vars[2].1,
        user_value(store, handles, sid, environment_key(), "TMP"@),
        temp_default,
        profile,
    )
    &&& vars[3].0 == "TEMP"@
    &&& user_folder_read(
        vars[3].1,
        user_value(store, handles, sid, environment_key(), "TEMP"@),
        temp_default,
        profile,
    )
    &&& vars[4] == ("HOMEPATH"@, home_path_of(profile))
    &&& vars[5] == ("HOMEDRIVE"@, home_drive_of(profile))
    &&& vars[6] == ("USERNAME"@, user_name_of(profile))
}

/// A list of pairs of texts with each text as its characters.
pub open spec fn pairs_of(v: Seq<(String, String)>) -> Seq<(Seq<char>, Seq<char>)> {
    v.map_values(|p: (String, String)| (p.0@, p.1@))
}

/// Two folders that are read from the key called `key_name` below the key
/// that `base` designates: the texts of the values `first` and `second`,
/// each with its default, and with the profile filled in. Where the key
/// cannot be opened, they are the defaults as they are.
fn folders_below<R: RegistryReader>(
    reg: &mut R,
    base: RegHiveKey,
    key_name: &str,
    first: &str,
    first_default: String,
    second: &str,
    second_default: String,
    user_profile: &str,
) -> (r: (String, String))
    requires
        old(reg).inv(),
    ensures
        kept(old(reg), final(reg), 1),
        user_folder_read(
            r.0@,
            stored_value(old(reg).store(), old(reg).handles(), base, key_name@, first@),
            first_default@,
            user_profile@,
        ),
        user_folder_read(
            r.1@,
            stored_value(old(reg).store(), old(reg).handles(), base, key_name@, second@),
            second_default@,
            user_profile@,
        ),
        old(reg).exact() && old(reg).handles_left() > 0 ==> r.0@ == folder_below(
            old(reg).store(),
            old(reg).handles(),
            base,
            key_name@,
            first@,
            first_default@,
            user_profile@,
        ) && r.1@ == folder_below(
            old(reg).store(),
            old(reg).handles(),
            base,
            key_name@,
            second@,
            second_default@,
            user_profile@,
        ),
{
    match reg.open_key(base, key_name) {
        Ok(key) => {
            let a = reg_value(&*reg, key, first, first_default);
            let b = reg_value(&*reg, key, second, second_default);
            reg.close_key(key);
            (replace_user_profile(a, user_profile), replace_user_profile(b, user_profile))
        },
        Err(_) => (first_default, second_default),
    }
}

/// The variables that are read for the user with the SID `user`, whose
/// profile is `user_profile`.
fn user_specific_env_vars<R: RegistryReader>(reg: &mut R, user: &str, user_profile: &str) -> (r:
    Vec<(String, String)>)
    requires
        old(reg).inv(),
    ensures
        kept(old(reg), final(reg), 3),
        user_vars_read(
            pairs_of(r@),
            old(reg).store(),
            old(reg).handles(),
            user@,
            user_profile@,
        ),
        old(reg).exact() && old(reg).handles_left() >= 3 ==> pairs_of(r@) == user_vars_of(
            old(reg).store(),
            old(reg).handles(),
            user@,
            user_profile@,
        ),
{
    let ghost start = *reg;
    let ghost store = reg.store();
    let ghost handles = reg.handles();
    let local = concat2(user_profile, "\\AppData\\Local");
    let roaming = concat2(user_profile, "\\AppData\\Roaming");
    let temp = concat2(user_profile, "\\AppData\\Local\\Temp");
    let (local_app_data, app_data, tmp, temp) = match reg.open_key(HKU, user) {
        Ok(user_key) => {
            let ghost r1 = *reg;
            let shell = folders_below(
                reg,
                user_key,
                "Software\\Microsoft\\Windows\\CurrentVersion\\Explorer\\User Shell Folders",
                "Local AppData",
                local,
                "AppData",
                roaming,
                user_profile,
            );
            let ghost r2 = *reg;
            let own = folders_below(
                reg,
                user_key,
                "Environment",
                "TMP",
                temp.clone(),
                "TEMP",
                temp,
                user_profile,
            );
            reg.close_key(user_key);
            proof {
                lemma_kept_both(&start, &r1, &r2, 1, 1);
                lemma_kept_both(&start, &r2, &*reg, 2, 1);
                assert(r1.handles()[user_key] == child_path(handles[HKU], user@));
                assert(r2.handles()[user_key] == child_path(handles[HKU], user@));
            }
            (shell.0, shell.1, own.0, own.1)
        },
        Err(_) => (local, roaming, temp.clone(), temp),
    };
    let (home_drive, home_path, username) = home_vars(user_profile);
    let mut to_ret: Vec<(String, String)> = Vec::new();
    to_ret.push((String::from_str("LOCALAPPDATA"), local_app_data));
    to_ret.push((String::from_str("APPDATA"), app_data));
    to_ret.push((String::from_str("TMP"), tmp));
    to_ret.push((String::from_str("TEMP"), temp));
    to_ret.push((String::from_str("HOMEPATH"), home_path));
    to_ret.push((String::from_str("HOMEDRIVE"), home_drive));
    to_ret.push((String::from_str("USERNAME"), username));
    proof {
        if old(reg).exact() && old(reg).handles_left() >= 3 {
            assert(pairs_of(to_ret@) =~= user_vars_of(store, handles, user@, user_profile@));
        }
    }
    to_ret
}

/// The variables that every user of the system sees, with the profile of
/// the user, in the order in which they are set.
pub open spec fn machine_vars_of(
    store: RegistryModel,
    handles: Map<RegHiveKey, Seq<char>>,
    profile: Seq<char>,
) -> Seq<(Seq<char>, Seq<char>)> {
    let root = system_root_of(store, handles);
    let folders = program_files_of(store, handles);
    seq![
        ("USERPROFILE"@, profile),
        ("SystemRoot"@, root),
        ("windir"@, root),
        ("SystemDrive"@, system_drive_of(root)),
        ("ProgramFiles"@, folders.program_files),
        ("ProgramData"@, program_data_of(store, handles)),
        ("ProgramFiles(x86)"@, folders.program_files_86),
        ("ProgramW6432"@, folders.program_files_w6432),
    ]
}

/// The variables of `base` with those of `vars` set one after another, so
/// that where a name occurs again the later value stands.
pub open spec fn layered(base: Map<Seq<char>, Seq<char>>, vars: Seq<(Seq<char>, Seq<char>)>) -> Map<
    Seq<char>,
    Seq<char>,
>
    decreases vars.len(),
{
    if vars.len() == 0 {
        base
    } else {
        layered(base, vars.drop_last()).insert(vars.last().0, vars.last().1)
    }
}

/// The environment of the user with the given SID and profile: the
/// variables of the machine, and over them those read for the user.
pub open spec fn env_of_user(
    store: RegistryModel,
    handles: Map<RegHiveKey, Seq<char>>,
    sid: Seq<char>,
    profile: Seq<char>,
) -> Map<Seq<char>, Seq<char>> {
    layered(
        layered(Map::<Seq<char>, Seq<char>>::empty(), machine_vars_of(store, handles, profile)),
        user_vars_of(store, handles, sid, profile),
    )
}

/// The environment of every user that has a profile, by SID: none at all
/// where the list of profiles cannot be opened.
pub open spec fn env_vars_of(store: RegistryModel, handles: Map<RegHiveKey, Seq<char>>) -> Option<
    Map<Seq<char>, Map<Seq<char>, Seq<char>>>,
> {
    match all_profiles_of(store, handles, system_root_of(store, handles)) {
        Some(profiles) => Some(
            Map::new(
                |sid: Seq<char>| profiles.contains_key(sid),
                |sid: Seq<char>| env_of_user(store, handles, sid, profiles[sid]),
            ),
        ),
        None => None,
    }
}

/// The environments of the users with each text as its characters.
pub open spec fn deep_views_of(m: Map<Seq<char>, UserEnvVars>) -> Map<
    Seq<char>,
    Map<Seq<char>, Seq<char>>,
> {
    Map::new(|k: Seq<char>| m.contains_key(k), |k: Seq<char>| views_of(m[k].map()))
}

/// The profile of each user of a map of environments: what it names
/// `USERPROFILE`.
pub open spec fn profiles_in(envs: Map<Seq<char>, Map<Seq<char>, Seq<char>>>) -> Map<
    Seq<char>,
    Seq<char>,
> {
    Map::new(|sid: Seq<char>| envs.contains_key(sid), |sid: Seq<char>| envs[sid]["USERPROFILE"@])
}

/// How many handles the reconstruction of the environments may need.
pub open spec fn handles_needed(store: RegistryModel, handles: Map<RegHiveKey, Seq<char>>) -> nat {
    4 + 7 * listed_sids(store, handles).len()
}

/// Sets the variables of `vars` in `map`, one after another.
fn set_all(map: &mut UserEnvVars, vars: &Vec<(String, String)>)
    requires
        old(map).wf(),
    ensures
        final(map).wf(),
        views_of(final(map).map()) == layered(views_of(old(map).map()), pairs_of(vars@)),
{
    let mut j: usize = 0;
    assert(pairs_of(vars@).take(0) =~= Seq::<(Seq<char>, Seq<char>)>::empty());
    while j < vars.len()
        invariant
            j <= vars.len(),
            map.wf(),
            views_of(map.map()) == layered(views_of(old(map).map()), pairs_of(vars@).take(j as int)),
        decreases vars.len() - j,
    {
        let ghost was = views_of(map.map());
        let name = vars[j].0.clone();
        let value = vars[j].1.clone();
        proof {
            let now = pairs_of(vars@).take(j + 1);
            assert(now.drop_last() =~= pairs_of(vars@).take(j as int));
            assert(now.last() == (name@, value@));
        }
        map.insert(name, value);
        assert(views_of(map.map()) =~= was.insert(name@, value@));
        j = j + 1;
    }
    assert(pairs_of(vars@).take(vars.len() as int) =~= pairs_of(vars@));
}

/// A variable as a pair of its name and its value.
fn var(name: &str, value: &String) -> (r: (String, String))
    ensures
        r.0@ == name@,
        r.1@ == value@,
{
    (String::from_str(name), value.clone())
}

/// The values that stand for a backend that knows the same roots under the
/// same paths are the same.
proof fn lemma_same_roots(
    store: RegistryModel,
    a: Map<RegHiveKey, Seq<char>>,
    b: Map<RegHiveKey, Seq<char>>,
)
    requires
        handles_kept(a, b),
        forall|k: RegHiveKey| !(k is Hkey) && #[trigger] b.contains_key(k) ==> a.contains_key(k),
    ensures
        system_root_of(store, a) == system_root_of(store, b),
        program_data_of(store, a) == program_data_of(store, b),
        program_files_of(store, a) == program_files_of(store, b),
        listed_sids(store, a) == listed_sids(store, b),
        forall|root: Seq<char>| all_profiles_of(store, a, root) == all_profiles_of(store, b, root),
        forall|sid: Seq<char>, profile: Seq<char>| #[trigger]
            user_vars_of(store, a, sid, profile) == user_vars_of(store, b, sid, profile),
        forall|key: Seq<char>, name: Seq<char>| #[trigger]
            stored_value(store, a, HKLM, key, name) == stored_value(store, b, HKLM, key, name),
        forall|sid: Seq<char>, key: Seq<char>, name: Seq<char>| #[trigger]
            user_value(store, a, sid, key, name) == user_value(store, b, sid, key, name),
        forall|sid: Seq<char>, root: Seq<char>, profile: Seq<char>| #[trigger]
            listed_profile(store, a, sid, root, profile) == listed_profile(
                store,
                b,
                sid,
                root,
                profile,
            ),
{
    assert(a.contains_key(HKLM) == b.contains_key(HKLM));
    assert(a.contains_key(HKU) == b.contains_key(HKU));
    if a.contains_key(HKLM) {
        assert(a[HKLM] == b[HKLM]);
    }
    if a.contains_key(HKU) {
        assert(a[HKU] == b[HKU]);
    }
}

/// What the variables of the machine are, whatever the backend returned:
/// eight variables under their names, in this order. The system root and
/// the folders are each the default or the text that is stored.
pub open spec fn machine_vars_read(
    vars: Seq<(Seq<char>, Seq<char>)>,
    store: RegistryModel,
    handles: Map<RegHiveKey, Seq<char>>,
    profile: Seq<char>,
) -> bool {
    &&& vars.len() == 8
    &&& vars[0] == ("USERPROFILE"@, profile)
    &&& vars[1].0 == "SystemRoot"@
    &&& read_or_default(
        vars[1].1,
        stored_value(
            store,
            handles,
            HKLM,
            crate::traits::registry::current_version_key(),
            "SystemRoot"@,
        ),
        "C:\\Windows"@,
    )
    &&& vars[2] == ("windir"@, vars[1].1)
    &&& vars[3] == ("SystemDrive"@, system_drive_of(vars[1].1))
    &&& vars[4].0 == "ProgramFiles"@
    &&& vars[5].0 == "ProgramData"@
    &&& read_or_default(
        vars[5].1,
        stored_value(store, handles, HKLM, shell_folders_key(), "Common AppData"@),
        "C:\\ProgramData"@,
    )
    &&& vars[6].0 == "ProgramFiles(x86)"@
    &&& vars[7].0 == "ProgramW6432"@
    &&& program_files_read(
        ProgramFilesView {
            program_files: vars[4].1,
            program_files_86: vars[6].1,
            program_files_w6432: vars[7].1,
        },
        store,
        handles,
    )
}

/// What holds of the environment of the user `sid` whatever the backend
/// returned. It names the fifteen variables. The profile is one that is
/// listed for the user. The system root, the folders of the machine and the
/// folders of the user are each the default or what is stored; the system
/// drive is that of the system root; the drive, the path and the name of the
/// user are those of the profile.
pub open spec fn env_shaped(
    env: Map<Seq<char>, Seq<char>>,
    store: RegistryModel,
    handles: Map<RegHiveKey, Seq<char>>,
    sid: Seq<char>,
) -> bool {
    let profile = env["USERPROFILE"@];
    &&& forall|name: Seq<char>|
        is_machine_name(name) || is_user_name(name) ==> #[trigger] env.contains_key(name)
    &&& listed_profile(store, handles, sid, env["SystemRoot"@], profile)
    &&& machine_vars_read(
        seq![
            ("USERPROFILE"@, profile),
            ("SystemRoot"@, env["SystemRoot"@]),
            ("windir"@, env["windir"@]),
            ("SystemDrive"@, env["SystemDrive"@]),
            ("ProgramFiles"@, env["ProgramFiles"@]),
            ("ProgramData"@, env["ProgramData"@]),
            ("ProgramFiles(x86)"@, env["ProgramFiles(x86)"@]),
            ("ProgramW6432"@, env["ProgramW6432"@]),
        ],
        store,
        handles,
        profile,
    )
    &&& user_vars_read(
        seq![
            ("LOCALAPPDATA"@, env["LOCALAPPDATA"@]),
            ("APPDATA"@, env["APPDATA"@]),
            ("TMP"@, env["TMP"@]),
            ("TEMP"@, env["TEMP"@]),
            ("HOMEPATH"@, env["HOMEPATH"@]),
            ("HOMEDRIVE"@, env["HOMEDRIVE"@]),
            ("USERNAME"@, env["USERNAME"@]),
        ],
        store,
        handles,
        sid,
        profile,
    )
}

/// A variable that is set at position `i` of a list, and under whose name
/// none is set after it, stands with that value in what is layered.
proof fn lemma_layered_at(
    base: Map<Seq<char>, Seq<char>>,
    vars: Seq<(Seq<char>, Seq<char>)>,
    i: int,
)
    requires
        0 <= i < vars.len(),
        forall|j: int| i < j < vars.len() ==> (#[trigger] vars[j]).0 != vars[i].0,
    ensures
        layered(base, vars).contains_key(vars[i].0),
        layered(base, vars)[vars[i].0] == vars[i].1,
    decreases vars.len(),
{
    if i < vars.len() - 1 {
        let before = vars.drop_last();
        assert(before[i] == vars[i]);
        assert forall|j: int| i < j < before.len() implies (#[trigger] before[j]).0
            != before[i].0 by {
            assert(before[j] == vars[j]);
        }
        lemma_layered_at(base, before, i);
        assert(vars.last() == vars[vars.len() - 1]);
    }
}

/// A name under which no variable of a list is set stands in what is
/// layered as it stands in the base.
proof fn lemma_layered_other(
    base: Map<Seq<char>, Seq<char>>,
    vars: Seq<(Seq<char>, Seq<char>)>,
    name: Seq<char>,
)
    requires
        forall|j: int| 0 <= j < vars.len() ==> (#[trigger] vars[j]).0 != name,
    ensures
        layered(base, vars).contains_key(name) == base.contains_key(name),
        base.contains_key(name) ==> layered(base, vars)[name] == base[name],
    decreases vars.len(),
{
    if vars.len() > 0 {
        let before = vars.drop_last();
        assert forall|j: int| 0 <= j < before.len() implies (#[trigger] before[j]).0 != name by {
            assert(before[j] == vars[j]);
        }
        lemma_layered_other(base, before, name);
        assert(vars.last() == vars[vars.len() - 1]);
    }
}

/// The lengths of the names of the variables of the environment, and the
/// characters in which those of one length differ.
proof fn lemma_name_facts()
    ensures
        "USERPROFILE"@.len() == 11,
        "SystemRoot"@.len() == 10,
        "windir"@.len() == 6,
        "SystemDrive"@.len() == 11,
        "ProgramFiles"@.len() == 12,
        "ProgramData"@.len() == 11,
        "ProgramFiles(x86)"@.len() == 17,
        "ProgramW6432"@.len() == 12,
        "LOCALAPPDATA"@.len() == 12,
        "APPDATA"@.len() == 7,
        "TMP"@.len() == 3,
        "TEMP"@.len() == 4,
        "HOMEPATH"@.len() == 8,
        "HOMEDRIVE"@.len() == 9,
        "USERNAME"@.len() == 8,
        "HOMEPATH"@[0] != "USERNAME"@[0],
        "ProgramFiles"@[0] != "LOCALAPPDATA"@[0],
        "ProgramFiles"@[7] != "ProgramW6432"@[7],
        "ProgramW6432"@[0] != "LOCALAPPDATA"@[0],
        "SystemDrive"@[0] != "ProgramData"@[0],
        "USERPROFILE"@[0] != "ProgramData"@[0],
        "USERPROFILE"@[0] != "SystemDrive"@[0],
{
    reveal_strlit("USERPROFILE");
    reveal_strlit("SystemRoot");
    reveal_strlit("windir");
    reveal_strlit("SystemDrive");
    reveal_strlit("ProgramFiles");
    reveal_strlit("ProgramData");
    reveal_strlit("ProgramFiles(x86)");
    reveal_strlit("ProgramW6432");
    reveal_strlit("LOCALAPPDATA");
    reveal_strlit("APPDATA");
    reveal_strlit("TMP");
    reveal_strlit("TEMP");
    reveal_strlit("HOMEPATH");
    reveal_strlit("HOMEDRIVE");
    reveal_strlit("USERNAME");
}

/// The names of the variables of the machine differ from each other and
/// from those of the variables that are read for a user, and these differ
/// from each other.
proof fn lemma_names_differ()
    ensures
        "USERPROFILE"@ != "SystemRoot"@,
        "USERPROFILE"@ != "windir"@,
        "USERPROFILE"@ != "SystemDrive"@,
        "USERPROFILE"@ != "ProgramFiles"@,
        "USERPROFILE"@ != "ProgramData"@,
        "USERPROFILE"@ != "ProgramFiles(x86)"@,
        "USERPROFILE"@ != "ProgramW6432"@,
        "SystemRoot"@ != "windir"@,
        "SystemRoot"@ != "SystemDrive"@,
        "SystemRoot"@ != "ProgramFiles"@,
        "SystemRoot"@ != "ProgramData"@,
        "SystemRoot"@ != "ProgramFiles(x86)"@,
        "SystemRoot"@ != "ProgramW6432"@,
        "windir"@ != "SystemDrive"@,
        "windir"@ != "ProgramFiles"@,
        "windir"@ != "ProgramData"@,
        "windir"@ != "ProgramFiles(x86)"@,
        "windir"@ != "ProgramW6432"@,
        "SystemDrive"@ != "ProgramFiles"@,
        "SystemDrive"@ != "ProgramData"@,
        "SystemDrive"@ != "ProgramFiles(x86)"@,
        "SystemDrive"@ != "ProgramW6432"@,
        "ProgramFiles"@ != "ProgramData"@,
        "ProgramFiles"@ != "ProgramFiles(x86)"@,
        "ProgramFiles"@ != "ProgramW6432"@,
        "ProgramData"@ != "ProgramFiles(x86)"@,
        "ProgramData"@ != "ProgramW6432"@,
        "ProgramFiles(x86)"@ != "ProgramW6432"@,
        forall|machine: Seq<char>, user: Seq<char>|
            #![trigger is_machine_name(machine), is_user_name(user)]
            is_machine_name(machine) && is_user_name(user) ==> machine != user,
        "LOCALAPPDATA"@ != "APPDATA"@,
        "LOCALAPPDATA"@ != "TMP"@,
        "LOCALAPPDATA"@ != "TEMP"@,
        "LOCALAPPDATA"@ != "HOMEPATH"@,
        "LOCALAPPDATA"@ != "HOMEDRIVE"@,
        "LOCALAPPDATA"@ != "USERNAME"@,
        "APPDATA"@ != "TMP"@,
        "APPDATA"@ != "TEMP"@,
        "APPDATA"@ != "HOMEPATH"@,
        "APPDATA"@ != "HOMEDRIVE"@,
        "APPDATA"@ != "USERNAME"@,
        "TMP"@ != "TEMP"@,
        "TMP"@ != "HOMEPATH"@,
        "TMP"@ != "HOMEDRIVE"@,
        "TMP"@ != "USERNAME"@,
        "TEMP"@ != "HOMEPATH"@,
        "TEMP"@ != "HOMEDRIVE"@,
        "TEMP"@ != "USERNAME"@,
        "HOMEPATH"@ != "HOMEDRIVE"@,
        "HOMEPATH"@ != "USERNAME"@,
        "HOMEDRIVE"@ != "USERNAME"@,
{
    lemma_name_facts();
}

/// One of the names of the variables of the machine.
pub open spec fn is_machine_name(name: Seq<char>) -> bool {
    ||| name == "USERPROFILE"@
    ||| name == "SystemRoot"@
    ||| name == "windir"@
    ||| name == "SystemDrive"@
    ||| name == "ProgramFiles"@
    ||| name == "ProgramData"@
    ||| name == "ProgramFiles(x86)"@
    ||| name == "ProgramW6432"@
}

/// One of the names of the variables that are read for a user.
pub open spec fn is_user_name(name: Seq<char>) -> bool {
    ||| name == "LOCALAPPDATA"@
    ||| name == "APPDATA"@
    ||| name == "TMP"@
    ||| name == "TEMP"@
    ||| name == "HOMEPATH"@
    ||| name == "HOMEDRIVE"@
    ||| name == "USERNAME"@
}

/// The variables of the machine with those of a user over them make an
/// environment of which holds what holds whatever the backend returned.
proof fn lemma_env_shaped(
    machine: Seq<(Seq<char>, Seq<char>)>,
    user: Seq<(Seq<char>, Seq<char>)>,
    store: RegistryModel,
    handles: Map<RegHiveKey, Seq<char>>,
    sid: Seq<char>,
    profile: Seq<char>,
)
    requires
        machine_vars_read(machine, store, handles, profile),
        user_vars_read(user, store, handles, sid, profile),
        listed_profile(store, handles, sid, machine[1].1, profile),
    ensures
        env_shaped(
            layered(layered(Map::<Seq<char>, Seq<char>>::empty(), machine), user),
            store,
            handles,
            sid,
        ),
        layered(layered(Map::<Seq<char>, Seq<char>>::empty(), machine), user)["USERPROFILE"@]
            == profile,
{
    lemma_names_differ();
    let nothing = Map::<Seq<char>, Seq<char>>::empty();
    let base = layered(nothing, machine);
    let env = layered(base, user);
    lemma_layered_at(nothing, machine, 0);
    lemma_layered_at(nothing, machine, 1);
    lemma_layered_at(nothing, machine, 2);
    lemma_layered_at(nothing, machine, 3);
    lemma_layered_at(nothing, machine, 4);
    lemma_layered_at(nothing, machine, 5);
    lemma_layered_at(nothing, machine, 6);
    lemma_layered_at(nothing, machine, 7);
    assert forall|j: int| 0 <= j < user.len() implies is_user_name((#[trigger] user[j]).0) by {}
    assert(is_machine_name("USERPROFILE"@));
    assert(is_machine_name("SystemRoot"@));
    assert(is_machine_name("windir"@));
    assert(is_machine_name("SystemDrive"@));
    assert(is_machine_name("ProgramFiles"@));
    assert(is_machine_name("ProgramData"@));
    assert(is_machine_name("ProgramFiles(x86)"@));
    assert(is_machine_name("ProgramW6432"@));
    lemma_layered_other(base, user, "USERPROFILE"@);
    lemma_layered_other(base, user, "SystemRoot"@);
    lemma_layered_other(base, user, "windir"@);
    lemma_layered_other(base, user, "SystemDrive"@);
    lemma_layered_other(base, user, "ProgramFiles"@);
    lemma_layered_other(base, user, "ProgramData"@);
    lemma_layered_other(base, user, "ProgramFiles(x86)"@);
    lemma_layered_other(base, user, "ProgramW6432"@);
    lemma_layered_at(base, user, 0);
    lemma_layered_at(base, user, 1);
    lemma_layered_at(base, user, 2);
    lemma_layered_at(base, user, 3);
    lemma_layered_at(base, user, 4);
    lemma_layered_at(base, user, 5);
    lemma_layered_at(base, user, 6);
}

/// Extract the principal environment variables for all users which have a profile:
/// * USERPROFILE
/// * SystemRoot
/// * windir
/// * SystemDrive
/// * ProgramFiles
/// * ProgramData
/// * ProgramFiles(x86)
/// * ProgramW6432
/// * LOCALAPPDATA
/// * APPDATA
/// * TMP
/// * TEMP
/// * HOMEPATH
/// * HOMEDRIVE
/// * USERNAME
///
/// The backend holds afterwards what it held before. Whatever the backend
/// returned, each variable is its default or what is stored for it, and the
/// profile of the local system account also stands under the empty name.
/// Where the backend is exact and has handles enough, the result is the
/// environment that its store describes; it is `Missing` exactly where the
/// list of profiles cannot be opened.
pub fn get_env_vars_of_users<R: RegistryReader>(reg_reader: &mut R) -> (r: ForensicResult<
    UsersEnvVars,
>)
    requires
        old(reg_reader).inv(),
    ensures
        final(reg_reader).inv(),
        final(reg_reader).store() == old(reg_reader).store(),
        final(reg_reader).exact() == old(reg_reader).exact(),
        handles_kept(old(reg_reader).handles(), final(reg_reader).handles()),
        r matches Ok(m) ==> m.wf() && forall|sid: Seq<char>| #[trigger]
            m.map().contains_key(sid) ==> m.map()[sid].wf() && env_shaped(
                views_of(m.map()[sid].map()),
                old(reg_reader).store(),
                old(reg_reader).handles(),
                sid,
            ),
        r matches Ok(m) ==> alias_stands(
            profiles_in(deep_views_of(m.map())),
            listed_sids(old(reg_reader).store(), old(reg_reader).handles()),
        ),
        old(reg_reader).exact() && old(reg_reader).handles_left() >= handles_needed(
            old(reg_reader).store(),
            old(reg_reader).handles(),
        ) ==> match r {
            Ok(m) => env_vars_of(old(reg_reader).store(), old(reg_reader).handles()) == Some(
                deep_views_of(m.map()),
            ),
            Err(e) => env_vars_of(old(reg_reader).store(), old(reg_reader).handles()) is None
                && e@ is Missing,
        },
{
    let ghost store = reg_reader.store();
    let ghost handles = reg_reader.handles();
    let ghost start = *reg_reader;
    let ghost count = listed_sids(store, handles).len();
    let ghost exact = reg_reader.exact() && reg_reader.handles_left() >= handles_needed(
        store,
        handles,
    );
    let system_root_path = system_root(reg_reader);
    let ghost r1 = *reg_reader;
    let system_dive = system_drive(system_root_path.as_str());
    let program_files = program_files(reg_reader);
    let ghost r2 = *reg_reader;
    let program_data = program_data(reg_reader);
    let ghost r3 = *reg_reader;
    proof {
        lemma_kept_both(&start, &r1, &r2, 1, 1);
        lemma_kept_both(&start, &r2, &r3, 2, 1);
        lemma_same_roots(store, handles, r1.handles());
        lemma_same_roots(store, handles, r2.handles());
        lemma_same_roots(store, handles, r3.handles());
    }
    let profiles = match list_all_profiles(reg_reader, system_root_path.as_str()) {
        Ok(p) => p,
        Err(e) => {
            proof {
                lemma_kept_both(&start, &r3, &*reg_reader, 3, 1 + count);
            }
            return Err(e);
        },
    };
    let ghost r4 = *reg_reader;
    proof {
        lemma_kept_both(&start, &r3, &r4, 3, 1 + count);
        lemma_same_roots(store, handles, r4.handles());
        profiles.lemma_names();
    }
    let mut map: UsersEnvVars = StrMap::new();
    let mut i: usize = 0;
    while i < profiles.len()
        invariant
            i <= profiles.names().len(),
            profiles.wf(),
            profiles.names().len() <= 2 * count,
            count == listed_sids(store, handles).len(),
            store == start.store(),
            handles == start.handles(),
            kept(&start, &*reg_reader, (4 + count + 3 * i) as nat),
            exact ==> start.exact() && start.handles_left() >= 4 + 7 * count,
            exact ==> system_root_path@ == system_root_of(store, handles),
            exact ==> program_files@ == program_files_of(store, handles),
            exact ==> program_data@ == program_data_of(store, handles),
            read_or_default(
                system_root_path@,
                stored_value(
                    store,
                    handles,
                    HKLM,
                    crate::traits::registry::current_version_key(),
                    "SystemRoot"@,
                ),
                "C:\\Windows"@,
            ),
            read_or_default(
                program_data@,
                stored_value(store, handles, HKLM, shell_folders_key(), "Common AppData"@),
                "C:\\ProgramData"@,
            ),
            program_files_read(program_files@, store, handles),
            system_dive@ == system_drive_of(system_root_path@),
            map.wf(),
            forall|sid: Seq<char>| #[trigger]
                profiles.map().contains_key(sid) ==> profiles.map()[sid]@.len() > 0
                    && listed_profile(
                    store,
                    handles,
                    sid,
                    system_root_path@,
                    profiles.map()[sid]@,
                ),
            forall|sid: Seq<char>| #[trigger]
                map.map().contains_key(sid) ==> map.map()[sid].wf() && env_shaped(
                    views_of(map.map()[sid].map()),
                    store,
                    handles,
                    sid,
                ) && views_of(map.map()[sid].map())["USERPROFILE"@] == profiles.map()[sid]@,
            forall|sid: Seq<char>| #[trigger]
                map.map().contains_key(sid) <==> exists|j: int|
                    0 <= j < i && #[trigger] profiles.names()[j] == sid,
            exact ==> forall|sid: Seq<char>| #[trigger]
                map.map().contains_key(sid) ==> views_of(map.map()[sid].map()) == env_of_user(
                    store,
                    handles,
                    sid,
                    profiles.map()[sid]@,
                ),
        decreases profiles.names().len() - i,
    {
        let user_sid = profiles.name_at(i);
        let user_home = profiles.value_at(i);
        proof {
            profiles.lemma_names();
            lemma_same_roots(store, handles, reg_reader.handles());
        }
        let mut machine: Vec<(String, String)> = Vec::new();
        machine.push(var("USERPROFILE", user_home));
        machine.push(var("SystemRoot", &system_root_path));
        machine.push(var("windir", &system_root_path));
        machine.push(var("SystemDrive", &system_dive));
        machine.push(var("ProgramFiles", &program_files.program_files));
        machine.push(var("ProgramData", &program_data));
        machine.push(var("ProgramFiles(x86)", &program_files.program_files_86));
        machine.push(var("ProgramW6432", &program_files.program_files_w6432));
        proof {
            if exact {
                assert(pairs_of(machine@) =~= machine_vars_of(store, handles, user_home@));
            }
            assert(profiles.map().contains_key(user_sid@));
            assert(machine_vars_read(pairs_of(machine@), store, handles, user_home@));
        }
        let mut user_map: UserEnvVars = StrMap::new();
        assert(views_of(user_map.map()) =~= Map::<Seq<char>, Seq<char>>::empty());
        set_all(&mut user_map, &machine);
        let ghost before = *reg_reader;
        let user_vars = user_specific_env_vars(reg_reader, user_sid.as_str(), user_home.as_str());
        set_all(&mut user_map, &user_vars);
        proof {
            lemma_same_roots(store, handles, before.handles());
            lemma_env_shaped(
                pairs_of(machine@),
                pairs_of(user_vars@),
                store,
                handles,
                user_sid@,
                user_home@,
            );
        }
        let ghost was = map;
        map.insert(user_sid.clone(), user_map);
        proof {
            lemma_kept_both(&start, &before, &*reg_reader, (4 + count + 3 * i) as nat, 3);
            assert forall|sid: Seq<char>| #[trigger]
                map.map().contains_key(sid) <==> exists|j: int|
                    0 <= j < i + 1 && #[trigger] profiles.names()[j] == sid by {
                if map.map().contains_key(sid) {
                    if sid == user_sid@ {
                        assert(profiles.names()[i as int] == sid);
                    } else {
                        let j = choose|j: int| 0 <= j < i && #[trigger] profiles.names()[j] == sid;
                        assert(profiles.names()[j] == sid);
                    }
                }
                if exists|j: int| 0 <= j < i + 1 && #[trigger] profiles.names()[j] == sid {
                    let j = choose|j: int| 0 <= j < i + 1 && #[trigger] profiles.names()[j] == sid;
                    if j < i {
                        assert(was.map().contains_key(sid));
                    }
                }
            }
        }
        i = i + 1;
    }
    proof {
        profiles.lemma_names();
        let envs = deep_views_of(map.map());
        assert forall|sid: Seq<char>| envs.contains_key(sid) <==> profiles.map().contains_key(
            sid,
        ) by {
            if envs.contains_key(sid) {
                let j = choose|j: int|
                    0 <= j < profiles.names().len() && #[trigger] profiles.names()[j] == sid;
                assert(profiles.map().contains_key(profiles.names()[j]));
            }
            if profiles.map().contains_key(sid) {
                assert(profiles.names().contains(sid));
                let j = profiles.names().index_of(sid);
                assert(profiles.names()[j] == sid);
            }
        }
        assert(profiles_in(envs) =~= views_of(profiles.map()));
        if exact {
            let expected = env_vars_of(store, handles)->0;
            let found = deep_views_of(map.map());
            assert forall|sid: Seq<char>| found.contains_key(sid) <==> expected.contains_key(
                sid,
            ) by {
                if found.contains_key(sid) {
                    let j = choose|j: int|
                        0 <= j < profiles.names().len() && #[trigger] profiles.names()[j] == sid;
                    assert(profiles.map().contains_key(profiles.names()[j]));
                }
                if expected.contains_key(sid) {
                    assert(profiles.map().contains_key(sid));
                    assert(profiles.names().contains(sid));
                    let j = profiles.names().index_of(sid);
                    assert(profiles.names()[j] == sid);
                }
            }
            assert(found =~= expected);
        }
    }
    Ok(map)
}

/// Where the key that describes Windows names no folder of the programs,
/// the environment of every user names the default folder.
pub proof fn lemma_program_files_default(
    store: RegistryModel,
    handles: Map<RegHiveKey, Seq<char>>,
    sid: Seq<char>,
)
    requires
        stored_value(store, handles, HKLM, windows_key(), "ProgrammFilesDir"@) is None,
        env_vars_of(store, handles) is Some,
        env_vars_of(store, handles)->0.contains_key(sid),
    ensures
        env_vars_of(store, handles)->0[sid].contains_key("ProgramFiles"@),
        env_vars_of(store, handles)->0[sid]["ProgramFiles"@] == "C:\\Program Files"@,
{
    let profiles = all_profiles_of(store, handles, system_root_of(store, handles))->0;
    let profile = profiles[sid];
    let nothing = Map::<Seq<char>, Seq<char>>::empty();
    let machine = machine_vars_of(store, handles, profile);
    let user = user_vars_of(store, handles, sid, profile);
    lemma_names_differ();
    assert(machine[4] == ("ProgramFiles"@, "C:\\Program Files"@));
    lemma_layered_at(nothing, machine, 4);
    assert(is_machine_name("ProgramFiles"@));
    assert forall|j: int| 0 <= j < user.len() implies (#[trigger] user[j]).0 != "ProgramFiles"@ by {
        assert(is_user_name(user[j].0));
    }
    lemma_layered_other(layered(nothing, machine), user, "ProgramFiles"@);
}

/// Whatever the backend returned: where the key that describes Windows
/// names no folder of the programs, an environment of which `env_shaped`
/// holds names the default folder.
pub proof fn lemma_program_files_default_read(
    env: Map<Seq<char>, Seq<char>>,
    store: RegistryModel,
    handles: Map<RegHiveKey, Seq<char>>,
    sid: Seq<char>,
)
    requires
        env_shaped(env, store, handles, sid),
        stored_value(store, handles, HKLM, windows_key(), "ProgrammFilesDir"@) is None,
    ensures
        env.contains_key("ProgramFiles"@),
        env["ProgramFiles"@] == "C:\\Program Files"@,
{
    assert(is_machine_name("ProgramFiles"@));
}

/// What the environment of a user names: the profile, and the folders of
/// the user as they are read.
proof fn lemma_env_of_user(
    store: RegistryModel,
    handles: Map<RegHiveKey, Seq<char>>,
    sid: Seq<char>,
    profile: Seq<char>,
)
    ensures
        ({
            let env = env_of_user(store, handles, sid, profile);
            let user = user_vars_of(store, handles, sid, profile);
            &&& env.contains_key("USERPROFILE"@) && env["USERPROFILE"@] == profile
            &&& env.contains_key("LOCALAPPDATA"@) && env["LOCALAPPDATA"@] == user[0].1
            &&& env.contains_key("APPDATA"@) && env["APPDATA"@] == user[1].1
            &&& env.contains_key("TMP"@) && env["TMP"@] == user[2].1
            &&& env.contains_key("TEMP"@) && env["TEMP"@] == user[3].1
        }),
{
    let nothing = Map::<Seq<char>, Seq<char>>::empty();
    let machine = machine_vars_of(store, handles, profile);
    let user = user_vars_of(store, handles, sid, profile);
    let base = layered(nothing, machine);
    lemma_names_differ();
    lemma_layered_at(nothing, machine, 0);
    assert(is_machine_name("USERPROFILE"@));
    assert forall|j: int| 0 <= j < user.len() implies (#[trigger] user[j]).0 != "USERPROFILE"@ by {
        assert(is_user_name(user[j].0));
    }
    lemma_layered_other(base, user, "USERPROFILE"@);
    lemma_layered_at(base, user, 0);
    lemma_layered_at(base, user, 1);
    lemma_layered_at(base, user, 2);
    lemma_layered_at(base, user, 3);
}

/// Where the key of a user, or one of the two keys below it from which the
/// folders of the user are read, does not stand, the environment of the
/// user names the default folders below the profile.
pub proof fn lemma_user_defaults(
    store: RegistryModel,
    handles: Map<RegHiveKey, Seq<char>>,
    sid: Seq<char>,
)
    requires
        env_vars_of(store, handles) is Some,
        env_vars_of(store, handles)->0.contains_key(sid),
    ensures
        ({
            let env = env_vars_of(store, handles)->0[sid];
            let profile = env["USERPROFILE"@];
            &&& !user_key_stands(store, handles, sid, user_shell_folders_key()) ==> {
                &&& env["LOCALAPPDATA"@] == profile + "\\AppData\\Local"@
                &&& env["APPDATA"@] == profile + "\\AppData\\Roaming"@
            }
            &&& !user_key_stands(store, handles, sid, environment_key()) ==> {
                &&& env["TMP"@] == profile + "\\AppData\\Local\\Temp"@
                &&& env["TEMP"@] == profile + "\\AppData\\Local\\Temp"@
            }
        }),
{
    let profiles = all_profiles_of(store, handles, system_root_of(store, handles))->0;
    lemma_env_of_user(store, handles, sid, profiles[sid]);
}

/// What the profiles that are listed under the given SIDs are: a SID that
/// is listed with a profile has one; a name that is not empty has the
/// profile that is listed under it; and the profile of the local system
/// account also stands under the empty name, where it is the same profile
/// unless the empty name is listed too.
pub proof fn lemma_profiles_listed(
    store: RegistryModel,
    list_path: Seq<char>,
    sids: Seq<Seq<char>>,
    system_root: Seq<char>,
)
    ensures
        forall|sid: Seq<char>| #[trigger]
            sids.contains(sid) && profile_of(store, list_path, sid, system_root) is Some
                ==> profiles_of(store, list_path, sids, system_root).contains_key(sid),
        forall|sid: Seq<char>| #[trigger]
            profiles_of(store, list_path, sids, system_root).contains_key(sid) && sid.len() != 0
                ==> sids.contains(sid) && profile_of(store, list_path, sid, system_root) == Some(
                profiles_of(store, list_path, sids, system_root)[sid],
            ),
        alias_stands(profiles_of(store, list_path, sids, system_root), sids),
    decreases sids.len(),
{
    reveal_strlit("S-1-5-18");
    let all = profiles_of(store, list_path, sids, system_root);
    if sids.len() > 0 {
        let before = sids.drop_last();
        let last = sids.last();
        let was = profiles_of(store, list_path, before, system_root);
        lemma_profiles_listed(store, list_path, before, system_root);
        assert(sids.contains(last)) by {
            assert(sids[sids.len() - 1] == last);
        }
        assert forall|sid: Seq<char>| #[trigger] before.contains(sid) implies sids.contains(sid) by {
            let j = before.index_of(sid);
            assert(sids[j] == sid);
        }
        assert forall|sid: Seq<char>| #[trigger] sids.contains(sid) implies before.contains(sid)
            || sid == last by {
            let j = sids.index_of(sid);
            if j < sids.len() - 1 {
                assert(before[j] == sid);
            }
        }
        assert forall|sid: Seq<char>| #[trigger]
            sids.contains(sid) && profile_of(store, list_path, sid, system_root) is Some implies all.contains_key(
            sid,
        ) by {
            if sid != last {
                assert(before.contains(sid));
            }
        }
        assert forall|sid: Seq<char>| #[trigger] all.contains_key(sid) && sid.len() != 0 implies sids.contains(
            sid,
        ) && profile_of(store, list_path, sid, system_root) == Some(all[sid]) by {
            if sid != last {
                assert(was.contains_key(sid));
            }
        }
        if all.contains_key(local_system_sid()) {
            if last != local_system_sid() {
                assert(was.contains_key(local_system_sid()));
                if !sids.contains(Seq::<char>::empty()) {
                    assert(!before.contains(Seq::<char>::empty()));
                    assert(last != Seq::<char>::empty());
                }
            }
        }
    }
}

/// Local System aliasing in the environments: where the list of profiles
/// names the local system account with a profile, there is an environment
/// under its SID and one under the empty name; the first names that
/// profile, and so does the second unless the empty name is listed too.
pub proof fn lemma_local_system_environments(store: RegistryModel, handles: Map<RegHiveKey, Seq<char>>)
    requires
        env_vars_of(store, handles) is Some,
        listed_sids(store, handles).contains(local_system_sid()),
        profile_of(
            store,
            profile_list_path(handles),
            local_system_sid(),
            system_root_of(store, handles),
        ) is Some,
    ensures
        ({
            let envs = env_vars_of(store, handles)->0;
            let path = profile_of(
                store,
                profile_list_path(handles),
                local_system_sid(),
                system_root_of(store, handles),
            )->0;
            &&& envs.contains_key(local_system_sid())
            &&& envs[local_system_sid()]["USERPROFILE"@] == path
            &&& envs.contains_key(Seq::<char>::empty())
            &&& !listed_sids(store, handles).contains(Seq::<char>::empty())
                ==> envs[Seq::<char>::empty()]["USERPROFILE"@] == path
        }),
{
    reveal_strlit("S-1-5-18");
    let root = system_root_of(store, handles);
    let profiles = all_profiles_of(store, handles, root)->0;
    lemma_profiles_listed(store, profile_list_path(handles), listed_sids(store, handles), root);
    assert(profiles.contains_key(local_system_sid()));
    lemma_env_of_user(store, handles, local_system_sid(), profiles[local_system_sid()]);
    lemma_env_of_user(store, handles, Seq::<char>::empty(), profiles[Seq::<char>::empty()]);
}

/// Local System aliasing: where the local system account is listed with a
/// profile, and neither it nor the empty name is listed after that, its
/// profile stands both under its SID and under the empty name.
pub proof fn lemma_local_system_alias(
    store: RegistryModel,
    list_path: Seq<char>,
    sids: Seq<Seq<char>>,
    system_root: Seq<char>,
    i: int,
)
    requires
        0 <= i < sids.len(),
        sids[i] == local_system_sid(),
        profile_of(store, list_path, sids[i], system_root) is Some,
        forall|j: int|
            i < j < sids.len() ==> #[trigger] sids[j] != local_system_sid() && sids[j].len() != 0,
    ensures
        ({
            let profiles = profiles_of(store, list_path, sids, system_root);
            let path = profile_of(store, list_path, local_system_sid(), system_root)->0;
            &&& profiles.contains_key(local_system_sid())
            &&& profiles[local_system_sid()] == path
            &&& profiles.contains_key(Seq::<char>::empty())
            &&& profiles[Seq::<char>::empty()] == path
        }),
    decreases sids.len(),
{
    reveal_strlit("S-1-5-18");
    if i < sids.len() - 1 {
        let before = sids.drop_last();
        assert(before[i] == sids[i]);
        assert forall|j: int| i < j < before.len() implies #[trigger] before[j]
            != local_system_sid() && before[j].len() != 0 by {
            assert(before[j] == sids[j]);
        }
        lemma_local_system_alias(store, list_path, before, system_root, i);
        assert(sids.last() == sids[sids.len() - 1]);
    }
}

} // verus!

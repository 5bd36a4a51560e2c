//! The typed values of a registry, the keys that address it, and the
//! contract that every registry backend honours.
use crate::environment::user::{UserInfo, UserInfoView};
use crate::err::{ErrorView, ForensicError, ForensicResult};
use crate::text::{ends_with, is_suffix_of, starts_with};
use crate::utils::time::Filetime;
use vstd::prelude::*;
use vstd::std_specs::convert::{FromSpecImpl, TryFromSpecImpl};
use vstd::string::*;
use vstd::utf8::encode_utf8;

pub mod extra;

verus! {

/// The root of the classes.
pub const HKCR: RegHiveKey = RegHiveKey::HkeyClassesRoot;

/// The root of the current configuration.
pub const HKC: RegHiveKey = RegHiveKey::HkeyCurrentConfig;

/// The root of the current user.
pub const HKCU: RegHiveKey = RegHiveKey::HkeyCurrentUser;

/// The root of the local machine.
pub const HKLM: RegHiveKey = RegHiveKey::HkeyLocalMachine;

/// The root of the users.
pub const HKU: RegHiveKey = RegHiveKey::HkeyUsers;

/// A well-known root of the registry, or the handle of a key that was opened.
#[derive(Clone, Copy, PartialEq, Eq, PartialOrd, Ord, Debug, Structural)]
pub enum RegHiveKey {
    HkeyClassesRoot,
    HkeyCurrentConfig,
    HkeyCurrentUser,
    HkeyDynData,
    HkeyLocalMachine,
    KkeyPerformanceData,
    HkeyPerformanceNlstext,
    HkeyPerformanceText,
    HkeyUsers,
    Hkey(isize),
}

/// A value of the registry with its kind.
#[derive(PartialEq, Eq, PartialOrd, Ord, Debug)]
pub enum RegValue {
    Binary(Vec<u8>),
    MultiSZ(Vec<String>),
    ExpandSZ(String),
    SZ(String),
    DWord(u32),
    QWord(u64),
}

/// What a registry value holds, as plain values.
pub enum RegData {
    Binary(Seq<u8>),
    MultiSZ(Seq<Seq<char>>),
    ExpandSZ(Seq<char>),
    SZ(Seq<char>),
    DWord(u32),
    QWord(u64),
}

/// The texts of a list, each as its characters.
pub open spec fn texts(v: Seq<String>) -> Seq<Seq<char>> {
    v.map_values(|s: String| s@)
}

/// The parts of a list written one after another with `sep` between them.
pub open spec fn joined(parts: Seq<Seq<char>>, sep: Seq<char>) -> Seq<char>
    decreases parts.len(),
{
    if parts.len() == 0 {
        Seq::<char>::empty()
    } else if parts.len() == 1 {
        parts[0]
    } else {
        joined(parts.drop_last(), sep) + sep + parts.last()
    }
}

impl View for RegValue {
    type V = RegData;

    open spec fn view(&self) -> RegData {
        match self {
            RegValue::Binary(v) => RegData::Binary(v@),
            RegValue::MultiSZ(v) => RegData::MultiSZ(texts(v@)),
            RegValue::ExpandSZ(v) => RegData::ExpandSZ(v@),
            RegValue::SZ(v) => RegData::SZ(v@),
            RegValue::DWord(v) => RegData::DWord(*v),
            RegValue::QWord(v) => RegData::QWord(*v),
        }
    }
}

impl RegData {
    /// The text of a value that holds text: the lines of a multi-string
    /// joined by newlines, or the string itself. Other values hold none.
    pub open spec fn as_text(self) -> Option<Seq<char>> {
        match self {
            RegData::MultiSZ(v) => Some(joined(v, "\n"@)),
            RegData::ExpandSZ(v) => Some(v),
            RegData::SZ(v) => Some(v),
            _ => None,
        }
    }

    /// The 32-bit number of a value that holds a number; of a 64-bit
    /// number its low 32 bits.
    pub open spec fn as_u32(self) -> Option<u32> {
        match self {
            RegData::DWord(v) => Some(v),
            RegData::QWord(v) => Some((v % 0x1_0000_0000) as u32),
            _ => None,
        }
    }

    /// The 64-bit number of a value that holds a number.
    pub open spec fn as_u64(self) -> Option<u64> {
        match self {
            RegData::DWord(v) => Some(v as u64),
            RegData::QWord(v) => Some(v),
            _ => None,
        }
    }

    /// The bytes of a binary value.
    pub open spec fn as_bytes(self) -> Option<Seq<u8>> {
        match self {
            RegData::Binary(v) => Some(v),
            _ => None,
        }
    }
}

/// Copies a list of texts.
pub fn clone_texts(v: &Vec<String>) -> (r: Vec<String>)
    ensures
        texts(r@) == texts(v@),
{
    let mut r: Vec<String> = Vec::new();
    let mut i: usize = 0;
    while i < v.len()
        invariant
            i <= v.len(),
            r@.len() == i,
            forall|j: int| 0 <= j < i ==> (#[trigger] r@[j])@ == v@[j]@,
        decreases v.len() - i,
    {
        r.push(v[i].clone());
        i = i + 1;
    }
    assert(texts(r@) =~= texts(v@));
    r
}

/// Copies a list of bytes.
pub fn clone_bytes(v: &[u8]) -> (r: Vec<u8>)
    ensures
        r@ == v@,
{
    let mut r: Vec<u8> = Vec::new();
    let mut i: usize = 0;
    while i < v.len()
        invariant
            i <= v.len(),
            r@ == v@.take(i as int),
        decreases v.len() - i,
    {
        r.push(v[i]);
        i = i + 1;
        assert(r@ =~= v@.take(i as int));
    }
    assert(v@.take(v.len() as int) =~= v@);
    r
}

/// Writes the texts of a list one after another with `sep` between them.
pub fn join(parts: &Vec<String>, sep: &str) -> (r: String)
    ensures
        r@ == joined(texts(parts@), sep@),
{
    let mut r = String::new();
    let mut i: usize = 0;
    while i < parts.len()
        invariant
            i <= parts.len(),
            r@ == joined(texts(parts@).take(i as int), sep@),
        decreases parts.len() - i,
    {
        let ghost before = texts(parts@).take(i as int);
        let ghost after = texts(parts@).take(i + 1);
        proof {
            assert(after.drop_last() =~= before);
            assert(after.last() == parts@[i as int]@);
        }
        if i > 0 {
            r.append(sep);
        }
        r.append(parts[i].as_str());
        proof {
            if i == 0 {
                assert(r@ =~= after[0]);
            }
        }
        i = i + 1;
    }
    assert(texts(parts@).take(parts.len() as int) =~= texts(parts@));
    r
}

impl Clone for RegValue {
    fn clone(&self) -> (r: Self)
        ensures
            r@ == self@,
    {
        match self {
            RegValue::Binary(v) => RegValue::Binary(clone_bytes(v.as_slice())),
            RegValue::MultiSZ(v) => RegValue::MultiSZ(clone_texts(v)),
            RegValue::ExpandSZ(v) => RegValue::ExpandSZ(v.clone()),
            RegValue::SZ(v) => RegValue::SZ(v.clone()),
            RegValue::DWord(v) => RegValue::DWord(*v),
            RegValue::QWord(v) => RegValue::QWord(*v),
        }
    }
}

impl RegValue {
    /// A string value.
    pub fn from_str(v: &str) -> (r: RegValue)
        ensures
            r@ == RegData::SZ(v@),
    {
        RegValue::SZ(String::from_str(v))
    }

    /// A string value.
    pub fn from_string(v: String) -> (r: RegValue)
        ensures
            r@ == RegData::SZ(v@),
    {
        RegValue::SZ(v)
    }

    /// A 32-bit number.
    pub fn from_u32(v: u32) -> (r: RegValue)
        ensures
            r@ == RegData::DWord(v),
    {
        RegValue::DWord(v)
    }

    /// A 64-bit number.
    pub fn from_u64(v: u64) -> (r: RegValue)
        ensures
            r@ == RegData::QWord(v),
    {
        RegValue::QWord(v)
    }

    /// The text of the value: `CastError` where it holds none.
    pub fn into_text(self) -> (r: ForensicResult<String>)
        ensures
            match r {
                Ok(s) => self@.as_text() == Some(s@),
                Err(e) => self@.as_text() is None && e@ == ErrorView::CastError,
            },
    {
        match self {
            RegValue::MultiSZ(v) => Ok(join(&v, "\n")),
            RegValue::ExpandSZ(v) => Ok(v),
            RegValue::SZ(v) => Ok(v),
            _ => Err(ForensicError::CastError),
        }
    }

    /// The 32-bit number of the value: `CastError` where it holds none.
    pub fn into_u32(self) -> (r: ForensicResult<u32>)
        ensures
            match r {
                Ok(n) => self@.as_u32() == Some(n),
                Err(e) => self@.as_u32() is None && e@ == ErrorView::CastError,
            },
    {
        match self {
            RegValue::DWord(v) => Ok(v),
            RegValue::QWord(v) => Ok((v % 0x1_0000_0000) as u32),
            _ => Err(ForensicError::CastError),
        }
    }

    /// The 64-bit number of the value: `CastError` where it holds none.
    pub fn into_u64(self) -> (r: ForensicResult<u64>)
        ensures
            match r {
                Ok(n) => self@.as_u64() == Some(n),
                Err(e) => self@.as_u64() is None && e@ == ErrorView::CastError,
            },
    {
        match self {
            RegValue::DWord(v) => Ok(v as u64),
            RegValue::QWord(v) => Ok(v),
            _ => Err(ForensicError::CastError),
        }
    }

    /// The bytes of the value: `CastError` where it is not binary.
    pub fn into_bytes(self) -> (r: ForensicResult<Vec<u8>>)
        ensures
            match r {
                Ok(b) => self@.as_bytes() == Some(b@),
                Err(e) => self@.as_bytes() is None && e@ == ErrorView::CastError,
            },
    {
        match self {
            RegValue::Binary(v) => Ok(v),
            _ => Err(ForensicError::CastError),
        }
    }
}

impl TryFrom<RegValue> for String {
    type Error = ForensicError;

    fn try_from(value: RegValue) -> (r: Result<Self, Self::Error>)
        ensures
            match r {
                Ok(s) => value@.as_text() == Some(s@),
                Err(e) => value@.as_text() is None && e@ == ErrorView::CastError,
            },
    {
        value.into_text()
    }
}

/// The conversion makes a value of its own, which no expression of a
/// contract names: what comes out is stated by the conversion itself.
impl TryFromSpecImpl<RegValue> for String {
    open spec fn obeys_try_from_spec() -> bool {
        false
    }

    open spec fn try_from_spec(v: RegValue) -> Result<Self, Self::Error> {
        arbitrary()
    }
}

impl TryFrom<RegValue> for u32 {
    type Error = ForensicError;

    fn try_from(value: RegValue) -> (r: Result<Self, Self::Error>)
        ensures
            match r {
                Ok(n) => value@.as_u32() == Some(n),
                Err(e) => value@.as_u32() is None && e@ == ErrorView::CastError,
            },
    {
        value.into_u32()
    }
}

/// The conversion makes a value of its own, which no expression of a
/// contract names: what comes out is stated by the conversion itself.
impl TryFromSpecImpl<RegValue> for u32 {
    open spec fn obeys_try_from_spec() -> bool {
        false
    }

    open spec fn try_from_spec(v: RegValue) -> Result<Self, Self::Error> {
        arbitrary()
    }
}

impl TryFrom<RegValue> for u64 {
    type Error = ForensicError;

    fn try_from(value: RegValue) -> (r: Result<Self, Self::Error>)
        ensures
            match r {
                Ok(n) => value@.as_u64() == Some(n),
                Err(e) => value@.as_u64() is None && e@ == ErrorView::CastError,
            },
    {
        value.into_u64()
    }
}

/// The conversion makes a value of its own, which no expression of a
/// contract names: what comes out is stated by the conversion itself.
impl TryFromSpecImpl<RegValue> for u64 {
    open spec fn obeys_try_from_spec() -> bool {
        false
    }

    open spec fn try_from_spec(v: RegValue) -> Result<Self, Self::Error> {
        arbitrary()
    }
}

impl TryFrom<RegValue> for Vec<u8> {
    type Error = ForensicError;

    fn try_from(value: RegValue) -> (r: Result<Self, Self::Error>)
        ensures
            match r {
                Ok(b) => value@.as_bytes() == Some(b@),
                Err(e) => value@.as_bytes() is None && e@ == ErrorView::CastError,
            },
    {
        value.into_bytes()
    }
}

/// The conversion makes a value of its own, which no expression of a
/// contract names: what comes out is stated by the conversion itself.
impl TryFromSpecImpl<RegValue> for Vec<u8> {
    open spec fn obeys_try_from_spec() -> bool {
        false
    }

    open spec fn try_from_spec(v: RegValue) -> Result<Self, Self::Error> {
        arbitrary()
    }
}

impl From<String> for RegValue {
    fn from(value: String) -> (r: Self) {
        RegValue::SZ(value)
    }
}

impl FromSpecImpl<String> for RegValue {
    open spec fn obeys_from_spec() -> bool {
        true
    }

    open spec fn from_spec(value: String) -> Self {
        RegValue::SZ(value)
    }
}

impl From<&str> for RegValue {
    fn from(value: &str) -> (r: Self)
        ensures
            r@ == RegData::SZ(value@),
    {
        RegValue::SZ(String::from_str(value))
    }
}

/// The conversion makes a value of its own, which no expression of a
/// contract names: what comes out is stated by the conversion itself.
impl FromSpecImpl<&str> for RegValue {
    open spec fn obeys_from_spec() -> bool {
        false
    }

    open spec fn from_spec(value: &str) -> Self {
        arbitrary()
    }
}

impl From<u32> for RegValue {
    fn from(value: u32) -> (r: Self) {
        RegValue::DWord(value)
    }
}

impl FromSpecImpl<u32> for RegValue {
    open spec fn obeys_from_spec() -> bool {
        true
    }

    open spec fn from_spec(value: u32) -> Self {
        RegValue::DWord(value)
    }
}

impl From<u64> for RegValue {
    fn from(value: u64) -> (r: Self) {
        RegValue::QWord(value)
    }
}

impl FromSpecImpl<u64> for RegValue {
    open spec fn obeys_from_spec() -> bool {
        true
    }

    open spec fn from_spec(value: u64) -> Self {
        RegValue::QWord(value)
    }
}

/// A signed 32-bit number as the unsigned number of the same 32 bits.
pub open spec fn bits_of_i32(value: i32) -> u32 {
    if value >= 0 {
        value as u32
    } else {
        (value + 0x1_0000_0000) as u32
    }
}

/// A signed 64-bit number as the unsigned number of the same 64 bits.
pub open spec fn bits_of_i64(value: i64) -> u64 {
    if value >= 0 {
        value as u64
    } else {
        (value + 0x1_0000_0000_0000_0000) as u64
    }
}

impl From<i32> for RegValue {
    fn from(value: i32) -> (r: Self) {
        if value >= 0 {
            RegValue::DWord(value as u32)
        } else {
            RegValue::DWord((value as i64 + 0x1_0000_0000) as u32)
        }
    }
}

impl FromSpecImpl<i32> for RegValue {
    open spec fn obeys_from_spec() -> bool {
        true
    }

    open spec fn from_spec(value: i32) -> Self {
        RegValue::DWord(bits_of_i32(value))
    }
}

impl From<i64> for RegValue {
    fn from(value: i64) -> (r: Self) {
        if value >= 0 {
            RegValue::QWord(value as u64)
        } else {
            RegValue::QWord((value as i128 + 0x1_0000_0000_0000_0000) as u64)
        }
    }
}

impl FromSpecImpl<i64> for RegValue {
    open spec fn obeys_from_spec() -> bool {
        true
    }

    open spec fn from_spec(value: i64) -> Self {
        RegValue::QWord(bits_of_i64(value))
    }
}

impl From<usize> for RegValue {
    fn from(value: usize) -> (r: Self) {
        RegValue::QWord(value as u64)
    }
}

impl FromSpecImpl<usize> for RegValue {
    open spec fn obeys_from_spec() -> bool {
        true
    }

    open spec fn from_spec(value: usize) -> Self {
        RegValue::QWord(value as u64)
    }
}

impl From<Vec<u8>> for RegValue {
    fn from(value: Vec<u8>) -> (r: Self) {
        RegValue::Binary(value)
    }
}

impl FromSpecImpl<Vec<u8>> for RegValue {
    open spec fn obeys_from_spec() -> bool {
        true
    }

    open spec fn from_spec(value: Vec<u8>) -> Self {
        RegValue::Binary(value)
    }
}

impl From<Vec<String>> for RegValue {
    fn from(value: Vec<String>) -> (r: Self) {
        RegValue::MultiSZ(value)
    }
}

impl FromSpecImpl<Vec<String>> for RegValue {
    open spec fn obeys_from_spec() -> bool {
        true
    }

    open spec fn from_spec(value: Vec<String>) -> Self {
        RegValue::MultiSZ(value)
    }
}

impl From<&[u8]> for RegValue {
    fn from(value: &[u8]) -> (r: Self)
        ensures
            r@ == RegData::Binary(value@),
    {
        RegValue::Binary(clone_bytes(value))
    }
}

/// The conversion makes a value of its own, which no expression of a
/// contract names: what comes out is stated by the conversion itself.
impl FromSpecImpl<&[u8]> for RegValue {
    open spec fn obeys_from_spec() -> bool {
        false
    }

    open spec fn from_spec(value: &[u8]) -> Self {
        arbitrary()
    }
}

impl From<&[String]> for RegValue {
    fn from(value: &[String]) -> (r: Self)
        ensures
            r@ == RegData::MultiSZ(texts(value@)),
    {
        let mut vc: Vec<String> = Vec::new();
        let mut i: usize = 0;
        while i < value.len()
            invariant
                i <= value.len(),
                vc@.len() == i,
                forall|j: int| 0 <= j < i ==> (#[trigger] vc@[j])@ == value@[j]@,
            decreases value.len() - i,
        {
            vc.push(value[i].clone());
            i = i + 1;
        }
        assert(texts(vc@) =~= texts(value@));
        RegValue::MultiSZ(vc)
    }
}

/// The conversion makes a value of its own, which no expression of a
/// contract names: what comes out is stated by the conversion itself.
impl FromSpecImpl<&[String]> for RegValue {
    open spec fn obeys_from_spec() -> bool {
        false
    }

    open spec fn from_spec(value: &[String]) -> Self {
        arbitrary()
    }
}

impl From<&[&str]> for RegValue {
    fn from(value: &[&str]) -> (r: Self)
        ensures
            r@ == RegData::MultiSZ(value@.map_values(|s: &str| s@)),
    {
        let mut vc: Vec<String> = Vec::new();
        let mut i: usize = 0;
        while i < value.len()
            invariant
                i <= value.len(),
                vc@.len() == i,
                forall|j: int| 0 <= j < i ==> (#[trigger] vc@[j])@ == value@[j]@,
            decreases value.len() - i,
        {
            vc.push(String::from_str(value[i]));
            i = i + 1;
        }
        assert(texts(vc@) =~= value@.map_values(|s: &str| s@));
        RegValue::MultiSZ(vc)
    }
}

/// The conversion makes a value of its own, which no expression of a
/// contract names: what comes out is stated by the conversion itself.
impl FromSpecImpl<&[&str]> for RegValue {
    open spec fn obeys_from_spec() -> bool {
        false
    }

    open spec fn from_spec(value: &[&str]) -> Self {
        arbitrary()
    }
}

/// Type coercion totality: a value of every kind converts to the types of
/// its kind and to no other. Text is had from the three kinds of string,
/// numbers of either width from the two kinds of number, and bytes from a
/// binary value.
pub proof fn lemma_coercion_totality(value: RegData)
    ensures
        value.as_text() is Some <==> (value is MultiSZ || value is ExpandSZ || value is SZ),
        value.as_u32() is Some <==> (value is DWord || value is QWord),
        value.as_u64() is Some <==> (value is DWord || value is QWord),
        value.as_bytes() is Some <==> value is Binary,
        value.as_text() is Some || value.as_u64() is Some || value.as_bytes() is Some,
        value is ExpandSZ ==> value.as_text() == Some(value->ExpandSZ_0),
        value is SZ ==> value.as_text() == Some(value->SZ_0),
        value is DWord ==> value.as_u32() == Some(value->DWord_0),
        value is QWord ==> value.as_u64() == Some(value->QWord_0),
        value is Binary ==> value.as_bytes() == Some(value->Binary_0),
{
}

/// What a query on a key reports of it.
#[derive(Clone, Copy, Debug)]
pub struct RegistryKeyInfo {
    pub subkeys: u32,
    pub max_subkey_name_length: u32,
    pub values: u32,
    pub max_value_name_length: u32,
    pub max_value_length: u32,
    pub last_write_time: Filetime,
}

/// What a registry holds, as a backend presents it: which keys there are,
/// what their values are, and in which order their names are enumerated.
/// Keys are addressed by their absolute path.
pub struct RegistryModel {
    /// The paths at which a key stands.
    pub keys: Set<Seq<char>>,
    /// The values, by the path of their key and their name.
    pub values: Map<(Seq<char>, Seq<char>), RegData>,
    /// The names of the subkeys of each path that can be enumerated, in the
    /// order of the enumeration.
    pub subkeys: Map<Seq<char>, Seq<Seq<char>>>,
    /// The names of the values of each path that can be enumerated, in the
    /// order of the enumeration.
    pub value_names: Map<Seq<char>, Seq<Seq<char>>>,
}

/// Every key that `before` knows, `after` knows too, for the same path.
pub open spec fn handles_kept(
    before: Map<RegHiveKey, Seq<char>>,
    after: Map<RegHiveKey, Seq<char>>,
) -> bool {
    forall|k: RegHiveKey| #[trigger]
        before.contains_key(k) ==> after.contains_key(k) && after[k] == before[k]
}

/// The path of the key called `name` below the key at `base`.
pub open spec fn child_path(base: Seq<char>, name: Seq<char>) -> Seq<char> {
    base + seq!['\\'] + name
}

/// The length of a name: the number of bytes of its UTF-8 encoding.
pub open spec fn byte_len(name: Seq<char>) -> nat {
    encode_utf8(name).len()
}

/// The length of the longest of the names, in bytes, and 0 where there is
/// no name.
pub open spec fn longest(names: Seq<Seq<char>>) -> nat
    decreases names.len(),
{
    if names.len() == 0 {
        0
    } else {
        let rest = longest(names.drop_last());
        if byte_len(names.last()) > rest {
            byte_len(names.last())
        } else {
            rest
        }
    }
}

/// A count as a 32-bit number: its low 32 bits.
pub open spec fn low32(n: nat) -> u32 {
    (n % 0x1_0000_0000) as u32
}

/// The name of a key of the users hive that stands for a user: it begins
/// like a SID and is not the key of a user's classes.
pub open spec fn is_user_sid(name: Seq<char>) -> bool {
    "S-"@.is_prefix_of(name) && !is_suffix_of("_Classes"@, name)
}

/// The path, below the local machine hive, of the key that describes the
/// installed version of Windows.
pub open spec fn current_version_key() -> Seq<char> {
    "SOFTWARE\\Microsoft\\Windows NT\\CurrentVersion"@
}

/// The value called `value` of the key called `key` below the root `base`,
/// where the root is known, the key stands and it has such a value.
pub open spec fn stored_value(
    store: RegistryModel,
    handles: Map<RegHiveKey, Seq<char>>,
    base: RegHiveKey,
    key: Seq<char>,
    value: Seq<char>,
) -> Option<RegData> {
    if handles.contains_key(base) && store.keys.contains(child_path(handles[base], key))
        && store.values.contains_key((child_path(handles[base], key), value)) {
        Some(store.values[(child_path(handles[base], key), value)])
    } else {
        None
    }
}

/// The text of the value that `stored_value` finds, where it holds text.
pub open spec fn stored_text(
    store: RegistryModel,
    handles: Map<RegHiveKey, Seq<char>>,
    base: RegHiveKey,
    key: Seq<char>,
    value: Seq<char>,
) -> Option<Seq<char>> {
    match stored_value(store, handles, base, key, value) {
        Some(v) => v.as_text(),
        None => None,
    }
}

/// The 32-bit number of the value that `stored_value` finds, where it holds
/// a number.
pub open spec fn stored_u32(
    store: RegistryModel,
    handles: Map<RegHiveKey, Seq<char>>,
    base: RegHiveKey,
    key: Seq<char>,
    value: Seq<char>,
) -> Option<u32> {
    match stored_value(store, handles, base, key, value) {
        Some(v) => v.as_u32(),
        None => None,
    }
}

/// The text of the value called `name` of the key at `path`, where there
/// is such a value and it holds text.
pub open spec fn text_at(store: RegistryModel, path: Seq<char>, name: Seq<char>) -> Option<
    Seq<char>,
> {
    if store.values.contains_key((path, name)) {
        store.values[(path, name)].as_text()
    } else {
        None
    }
}

/// The path of the key that holds the session variables of a user, where
/// the users hive is known.
pub open spec fn volatile_environment_path(
    handles: Map<RegHiveKey, Seq<char>>,
    user_id: Seq<char>,
) -> Seq<char> {
    child_path(child_path(handles[HKU], user_id), "Volatile Environment"@)
}

/// What the session variables of a user tell of the user: nothing where the
/// key of the user or the key of the variables is not there, or where one of
/// the five variables is missing or holds no text.
pub open spec fn user_info_of(
    store: RegistryModel,
    handles: Map<RegHiveKey, Seq<char>>,
    user_id: Seq<char>,
) -> Option<UserInfoView> {
    let path = volatile_environment_path(handles, user_id);
    if handles.contains_key(HKU) && store.keys.contains(child_path(handles[HKU], user_id))
        && store.keys.contains(path) && text_at(store, path, "USERPROFILE"@) is Some && text_at(
        store,
        path,
        "APPDATA"@,
    ) is Some && text_at(store, path, "LOCALAPPDATA"@) is Some && text_at(
        store,
        path,
        "USERDOMAIN"@,
    ) is Some && text_at(store, path, "USERNAME"@) is Some {
        Some(
            UserInfoView {
                id: user_id,
                home: text_at(store, path, "USERPROFILE"@)->0,
                app_data: text_at(store, path, "APPDATA"@)->0,
                local_app_data: text_at(store, path, "LOCALAPPDATA"@)->0,
                domain: text_at(store, path, "USERDOMAIN"@)->0,
                name: text_at(store, path, "USERNAME"@)->0,
            },
        )
    } else {
        None
    }
}

/// At the key at `path`, the first of the five session variables that
/// cannot be read as text is not there at all: the others before it are
/// there and hold text.
pub open spec fn session_variable_missing(store: RegistryModel, path: Seq<char>) -> bool {
    if text_at(store, path, "USERPROFILE"@) is None {
        !store.values.contains_key((path, "USERPROFILE"@))
    } else if text_at(store, path, "APPDATA"@) is None {
        !store.values.contains_key((path, "APPDATA"@))
    } else if text_at(store, path, "LOCALAPPDATA"@) is None {
        !store.values.contains_key((path, "LOCALAPPDATA"@))
    } else if text_at(store, path, "USERDOMAIN"@) is None {
        !store.values.contains_key((path, "USERDOMAIN"@))
    } else {
        !store.values.contains_key((path, "USERNAME"@))
    }
}

/// The session variables of a user cannot be told for want of a key or a
/// value, and not because a value holds no text.
pub open spec fn user_info_missing(
    store: RegistryModel,
    handles: Map<RegHiveKey, Seq<char>>,
    user_id: Seq<char>,
) -> bool {
    let path = volatile_environment_path(handles, user_id);
    !handles.contains_key(HKU) || !store.keys.contains(child_path(handles[HKU], user_id))
        || !store.keys.contains(path) || session_variable_missing(store, path)
}

/// It allows decoupling the registry access library from the analysis library.
///
/// A backend presents what it holds as a `RegistryModel`, and the keys it
/// knows as a table from keys to absolute paths. Whatever a query returns is
/// what the model holds. A backend that is `exact` fails only where the model
/// has no answer; another may fail for reasons of its own.
pub trait RegistryReader {
    /// The backend is in order. A backend that states no invariant is
    /// always in order.
    open spec fn inv(&self) -> bool {
        true
    }

    /// What the registry holds. A backend that does not say what it holds
    /// leaves this open.
    open spec fn store(&self) -> RegistryModel {
        arbitrary()
    }

    /// The absolute path that each known key designates. A backend that
    /// does not say which keys it knows leaves this open.
    open spec fn handles(&self) -> Map<RegHiveKey, Seq<char>> {
        arbitrary()
    }

    /// The backend fails only where its store has no answer. A backend
    /// that does not claim this is not exact.
    open spec fn exact(&self) -> bool {
        false
    }

    /// How many keys can still be opened for certain. A backend that makes
    /// no promise has none.
    open spec fn handles_left(&self) -> nat {
        0
    }

    /// Mounts a registry reader of this kind in a hive file
    fn from_file<F>(&self, file: F) -> (r: ForensicResult<Self>) where Self: Sized
        ensures
            r matches Ok(reader) ==> reader.inv(),
    ;

    /// Mounts a registry reader of this kind in a file system: the Windows
    /// registry consists of numerous hives and we need access to all of them.
    fn from_fs<S>(&self, fs: S) -> (r: ForensicResult<Self>) where Self: Sized
        ensures
            r matches Ok(reader) ==> reader.inv(),
    ;

    /// Opens a registry key: the key called `key_name` below the key that
    /// `hkey` designates, which is given a new handle of its own. A handle is
    /// never one of the well-known roots.
    fn open_key(&mut self, hkey: RegHiveKey, key_name: &str) -> (r: ForensicResult<RegHiveKey>)
        requires
            old(self).inv(),
        ensures
            final(self).inv(),
            final(self).store() == old(self).store(),
            final(self).exact() == old(self).exact(),
            final(self).handles_left() + 1 >= old(self).handles_left(),
            match r {
                Ok(h) => {
                    &&& h is Hkey
                    &&& old(self).handles().contains_key(hkey)
                    &&& old(self).store().keys.contains(
                        child_path(old(self).handles()[hkey], key_name@),
                    )
                    &&& !old(self).handles().contains_key(h)
                    &&& final(self).handles() == old(self).handles().insert(
                        h,
                        child_path(old(self).handles()[hkey], key_name@),
                    )
                },
                Err(e) => final(self).handles() == old(self).handles(),
            },
            old(self).exact() && old(self).handles_left() > 0 ==> (r is Ok <==> old(
                self,
            ).handles().contains_key(hkey) && old(self).store().keys.contains(
                child_path(old(self).handles()[hkey], key_name@),
            )),
            old(self).exact() && old(self).handles_left() > 0 && r is Err ==> r->Err_0@ is Missing,
    ;

    /// Reads the value called `value_name` of the key that `hkey` designates.
    fn read_value(&self, hkey: RegHiveKey, value_name: &str) -> (r: ForensicResult<RegValue>)
        requires
            self.inv(),
        ensures
            r matches Ok(v) ==> {
                &&& self.handles().contains_key(hkey)
                &&& self.store().values.contains_key((self.handles()[hkey], value_name@))
                &&& self.store().values[(self.handles()[hkey], value_name@)] == v@
            },
            self.exact() ==> (r is Ok <==> self.handles().contains_key(hkey)
                && self.store().values.contains_key((self.handles()[hkey], value_name@))),
            self.exact() && r is Err ==> r->Err_0@ is Missing,
    ;

    /// The names of the values of the key that `hkey` designates, in order.
    fn enumerate_values(&self, hkey: RegHiveKey) -> (r: ForensicResult<Vec<String>>)
        requires
            self.inv(),
        ensures
            r matches Ok(v) ==> {
                &&& self.handles().contains_key(hkey)
                &&& self.store().value_names.contains_key(self.handles()[hkey])
                &&& self.store().value_names[self.handles()[hkey]] == texts(v@)
            },
            self.exact() ==> (r is Ok <==> self.handles().contains_key(hkey)
                && self.store().value_names.contains_key(self.handles()[hkey])),
            self.exact() && r is Err ==> r->Err_0@ is Missing,
    ;

    /// The names of the subkeys of the key that `hkey` designates, in order.
    fn enumerate_keys(&self, hkey: RegHiveKey) -> (r: ForensicResult<Vec<String>>)
        requires
            self.inv(),
        ensures
            r matches Ok(v) ==> {
                &&& self.handles().contains_key(hkey)
                &&& self.store().subkeys.contains_key(self.handles()[hkey])
                &&& self.store().subkeys[self.handles()[hkey]] == texts(v@)
            },
            self.exact() ==> (r is Ok <==> self.handles().contains_key(hkey)
                && self.store().subkeys.contains_key(self.handles()[hkey])),
            self.exact() && r is Err ==> r->Err_0@ is Missing,
    ;

    /// The name at position `pos` of the enumeration of the subkeys.
    fn key_at(&self, hkey: RegHiveKey, pos: u32) -> (r: ForensicResult<String>)
        requires
            self.inv(),
        ensures
            r matches Ok(s) ==> {
                &&& self.handles().contains_key(hkey)
                &&& self.store().subkeys.contains_key(self.handles()[hkey])
                &&& pos < self.store().subkeys[self.handles()[hkey]].len()
                &&& self.store().subkeys[self.handles()[hkey]][pos as int] == s@
            },
            self.exact() ==> (r is Ok <==> self.handles().contains_key(hkey)
                && self.store().subkeys.contains_key(self.handles()[hkey]) && pos
                < self.store().subkeys[self.handles()[hkey]].len()),
            self.exact() && r is Err ==> (if self.handles().contains_key(hkey)
                && self.store().subkeys.contains_key(self.handles()[hkey]) {
                r->Err_0@ is NoMoreData
            } else {
                r->Err_0@ is Missing
            }),
    ;

    /// The name at position `pos` of the enumeration of the values.
    fn value_at(&self, hkey: RegHiveKey, pos: u32) -> (r: ForensicResult<String>)
        requires
            self.inv(),
        ensures
            r matches Ok(s) ==> {
                &&& self.handles().contains_key(hkey)
                &&& self.store().value_names.contains_key(self.handles()[hkey])
                &&& pos < self.store().value_names[self.handles()[hkey]].len()
                &&& self.store().value_names[self.handles()[hkey]][pos as int] == s@
            },
            self.exact() ==> (r is Ok <==> self.handles().contains_key(hkey)
                && self.store().value_names.contains_key(self.handles()[hkey]) && pos
                < self.store().value_names[self.handles()[hkey]].len()),
            self.exact() && r is Err ==> (if self.handles().contains_key(hkey)
                && self.store().value_names.contains_key(self.handles()[hkey]) {
                r->Err_0@ is NoMoreData
            } else {
                r->Err_0@ is Missing
            }),
    ;

    /// Retrieves information about the key. Emulates RegQueryInfoKey
    fn key_info(&self, hkey: RegHiveKey) -> (r: ForensicResult<RegistryKeyInfo>)
        requires
            self.inv(),
        ensures
            r matches Ok(info) ==> {
                &&& self.handles().contains_key(hkey)
                &&& self.store().subkeys.contains_key(self.handles()[hkey])
                &&& self.store().value_names.contains_key(self.handles()[hkey])
                &&& info.subkeys == low32(self.store().subkeys[self.handles()[hkey]].len())
                &&& info.values == low32(self.store().value_names[self.handles()[hkey]].len())
                &&& info.max_subkey_name_length == low32(
                    longest(self.store().subkeys[self.handles()[hkey]]),
                )
                &&& info.max_value_name_length == low32(
                    longest(self.store().value_names[self.handles()[hkey]]),
                )
            },
            self.exact() ==> (r is Ok <==> self.handles().contains_key(hkey)
                && self.store().subkeys.contains_key(self.handles()[hkey])
                && self.store().value_names.contains_key(self.handles()[hkey])),
            self.exact() && r is Err ==> r->Err_0@ is Missing,
    ;

    /// Closes a handle to the specified registry key.
    fn close_key(&self, hkey: RegHiveKey) {
    }

    /// Get the same value as the env var "%SystemRoot%"". It's usually "C:\Windows"
    fn get_system_root(&mut self) -> (r: ForensicResult<String>)
        requires
            old(self).inv(),
        ensures
            final(self).inv(),
            final(self).store() == old(self).store(),
            final(self).exact() == old(self).exact(),
            handles_kept(old(self).handles(), final(self).handles()),
            r matches Ok(s) ==> stored_text(
                old(self).store(),
                old(self).handles(),
                HKLM,
                current_version_key(),
                "SystemRoot"@,
            ) == Some(s@),
            old(self).exact() && old(self).handles_left() > 0 ==> (r is Ok <==> stored_text(
                old(self).store(),
                old(self).handles(),
                HKLM,
                current_version_key(),
                "SystemRoot"@,
            ) is Some),
            old(self).exact() && old(self).handles_left() > 0 && r is Err ==> (if stored_value(
                old(self).store(),
                old(self).handles(),
                HKLM,
                current_version_key(),
                "SystemRoot"@,
            ) is None {
                r->Err_0@ is Missing
            } else {
                r->Err_0@ is CastError
            }),
    {
        let key = self.open_key(RegHiveKey::HkeyLocalMachine, "SOFTWARE\\Microsoft\\Windows NT\\CurrentVersion")?;
        let value = self.read_value(key, "SystemRoot")?;
        value.into_text()
    }

    /// The names of the keys of the users hive that stand for users.
    fn list_users(&self) -> (r: ForensicResult<Vec<String>>)
        requires
            self.inv(),
        ensures
            r matches Ok(v) ==> {
                &&& self.handles().contains_key(HKU)
                &&& self.store().subkeys.contains_key(self.handles()[HKU])
                &&& texts(v@) == self.store().subkeys[self.handles()[HKU]].filter(
                    |n: Seq<char>| is_user_sid(n),
                )
            },
            self.exact() ==> (r is Ok <==> self.handles().contains_key(HKU)
                && self.store().subkeys.contains_key(self.handles()[HKU])),
            self.exact() && r is Err ==> r->Err_0@ is Missing,
            r matches Err(e) ==> call_ensures(Self::enumerate_keys, (self, HKU), Err(e)),
    {
        let users = self.enumerate_keys(RegHiveKey::HkeyUsers)?;
        Ok(keep_user_sids(users))
    }

    /// What the session variables of the user with the SID `user_id` tell
    /// of the user. The first key or value that cannot be read decides the
    /// error.
    fn get_basic_user_info(&mut self, user_id: &str) -> (r: ForensicResult<UserInfo>)
        requires
            old(self).inv(),
        ensures
            final(self).inv(),
            final(self).store() == old(self).store(),
            final(self).exact() == old(self).exact(),
            handles_kept(old(self).handles(), final(self).handles()),
            r matches Ok(info) ==> user_info_of(old(self).store(), old(self).handles(), user_id@)
                == Some(info@),
            old(self).exact() && old(self).handles_left() >= 2 ==> (r is Ok <==> user_info_of(
                old(self).store(),
                old(self).handles(),
                user_id@,
            ) is Some),
            old(self).exact() && old(self).handles_left() >= 2 && r is Err ==> (if user_info_missing(
                old(self).store(),
                old(self).handles(),
                user_id@,
            ) {
                r->Err_0@ is Missing
            } else {
                r->Err_0@ is CastError
            }),
    {
        let user_key = self.open_key(RegHiveKey::HkeyUsers, user_id)?;
        let user_key = self.open_key(user_key, "Volatile Environment")?;
        let home = self.read_value(user_key, "USERPROFILE")?.into_text()?;
        let app_data = self.read_value(user_key, "APPDATA")?.into_text()?;
        let local_app_data = self.read_value(user_key, "LOCALAPPDATA")?.into_text()?;
        let domain = self.read_value(user_key, "USERDOMAIN")?.into_text()?;
        let name = self.read_value(user_key, "USERNAME")?.into_text()?;
        Ok(UserInfo { id: String::from_str(user_id), domain, name, home, app_data, local_app_data })
    }

    /// Get the current build of Windows: See "RTM build" in https://en.wikipedia.org/wiki/Comparison_of_Microsoft_Windows_versions
    fn windows_build(&mut self) -> (r: ForensicResult<u32>)
        requires
            old(self).inv(),
        ensures
            final(self).inv(),
            final(self).store() == old(self).store(),
            final(self).exact() == old(self).exact(),
            handles_kept(old(self).handles(), final(self).handles()),
            r matches Ok(n) ==> stored_u32(
                old(self).store(),
                old(self).handles(),
                HKLM,
                current_version_key(),
                "CurrentBuild"@,
            ) == Some(n),
            old(self).exact() && old(self).handles_left() > 0 ==> (r is Ok <==> stored_u32(
                old(self).store(),
                old(self).handles(),
                HKLM,
                current_version_key(),
                "CurrentBuild"@,
            ) is Some),
            old(self).exact() && old(self).handles_left() > 0 && r is Err ==> (if stored_value(
                old(self).store(),
                old(self).handles(),
                HKLM,
                current_version_key(),
                "CurrentBuild"@,
            ) is None {
                r->Err_0@ is Missing
            } else {
                r->Err_0@ is CastError
            }),
    {
        let key = self.open_key(RegHiveKey::HkeyLocalMachine, "SOFTWARE\\Microsoft\\Windows NT\\CurrentVersion")?;
        let value = self.read_value(key, "CurrentBuild")?;
        value.into_u32()
    }
}

/// Keeps the names that stand for users, in their order.
pub fn keep_user_sids(names: Vec<String>) -> (r: Vec<String>)
    ensures
        texts(r@) == texts(names@).filter(|n: Seq<char>| is_user_sid(n)),
{
    let ghost pred = |n: Seq<char>| is_user_sid(n);
    let mut r: Vec<String> = Vec::new();
    let mut i: usize = 0;
    proof {
        reveal(Seq::filter);
        assert(texts(names@).take(0) =~= Seq::<Seq<char>>::empty());
    }
    while i < names.len()
        invariant
            i <= names.len(),
            pred == |n: Seq<char>| is_user_sid(n),
            texts(r@) == texts(names@).take(i as int).filter(pred),
        decreases names.len() - i,
    {
        let name = &names[i];
        let keep = starts_with(name.as_str(), "S-") && !ends_with(name.as_str(), "_Classes");
        proof {
            reveal(Seq::filter);
            let before = texts(names@).take(i as int);
            let after = texts(names@).take(i + 1);
            assert(after.drop_last() =~= before);
            assert(after.last() == name@);
            assert(keep == pred(name@));
        }
        if keep {
            let ghost old_r = r@;
            r.push(name.clone());
            assert(texts(r@) =~= texts(old_r).push(name@));
        }
        i = i + 1;
    }
    assert(texts(names@).take(names.len() as int) =~= texts(names@));
    r
}

/// Simplify the process of closing Registry keys: runs `operation`, closes
/// `key`, and hands on what the operation returned.
pub fn auto_close_key<R: RegistryReader, F, T>(reader: &R, key: RegHiveKey, operation: F) -> (r:
    ForensicResult<T>) where F: FnOnce() -> ForensicResult<T>
    requires
        operation.requires(()),
    ensures
        operation.ensures((), r),
{
    let result = operation();
    reader.close_key(key);
    result
}

/// Positional stability of the subkeys: whatever the backend, the name
/// that `key_at` returns for a position is the name that stands at that
/// position in what `enumerate_keys` returns for the same key. With an exact
/// backend `key_at` has a name for every position of the enumeration, and
/// for a position at or beyond its length it fails with `NoMoreData`.
pub proof fn lemma_key_positions<R: RegistryReader>(
    reg: &R,
    hkey: RegHiveKey,
    pos: u32,
    names: Vec<String>,
    at: ForensicResult<String>,
)
    requires
        reg.inv(),
        call_ensures(R::enumerate_keys, (reg, hkey), Ok(names)),
        call_ensures(R::key_at, (reg, hkey, pos), at),
    ensures
        at matches Ok(name) ==> pos < names@.len() && names@[pos as int]@ == name@,
        reg.exact() ==> (at is Ok <==> pos < names@.len()),
        reg.exact() && pos >= names@.len() ==> at is Err && at->Err_0@ == ErrorView::NoMoreData,
{
}

/// Positional stability of the values: as `lemma_key_positions`, for
/// `value_at` and `enumerate_values`.
pub proof fn lemma_value_positions<R: RegistryReader>(
    reg: &R,
    hkey: RegHiveKey,
    pos: u32,
    names: Vec<String>,
    at: ForensicResult<String>,
)
    requires
        reg.inv(),
        call_ensures(R::enumerate_values, (reg, hkey), Ok(names)),
        call_ensures(R::value_at, (reg, hkey, pos), at),
    ensures
        at matches Ok(name) ==> pos < names@.len() && names@[pos as int]@ == name@,
        reg.exact() ==> (at is Ok <==> pos < names@.len()),
        reg.exact() && pos >= names@.len() ==> at is Err && at->Err_0@ == ErrorView::NoMoreData,
{
}

impl Default for RegistryKeyInfo {
    fn default() -> (r: Self)
        ensures
            r.subkeys == 0,
            r.max_subkey_name_length == 0,
            r.values == 0,
            r.max_value_name_length == 0,
            r.max_value_length == 0,
    {
        RegistryKeyInfo {
            subkeys: 0,
            max_subkey_name_length: 0,
            values: 0,
            max_value_name_length: 0,
            max_value_length: 0,
            last_write_time: Filetime::default(),
        }
    }
}

} // verus!

//! What a user did on a device.
use crate::utils::time::Filetime;
use vstd::prelude::*;
use vstd::std_specs::convert::FromSpecImpl;
use vstd::string::*;

verus! {

/// Activity of a user in a device
#[derive(Debug)]
pub struct ForensicActivity {
    pub timestamp: Filetime,
    pub user: String,
    pub session_id: SessionId,
    pub activity: ActivityType,
}

/// The session in which an activity took place.
#[derive(Debug)]
pub enum SessionId {
    Unknown,
    Id(String),
}

/// What a user did.
#[derive(Debug)]
pub enum ActivityType {
    Login,
    Browsing(String),
    FileSystem(FileSystemActivity),
    ProgramExecution(ProgramExecution),
    Unknown,
}

/// The execution of a program.
#[derive(Debug)]
pub struct ProgramExecution {
    pub executable: String,
}

/// What was done to a file.
#[derive(Debug)]
pub enum FileSystemActivity {
    Open(String),
    Delete(String),
    Move((String, String)),
    Create(String),
    Unknown,
}

impl ProgramExecution {
    /// The execution of the program at `executable`.
    pub fn new(executable: String) -> (r: Self)
        ensures
            r.executable == executable,
    {
        Self { executable }
    }

    /// The program that was executed.
    pub fn to_string(&self) -> (s: String)
        ensures
            s@ == self.executable@,
    {
        self.executable.clone()
    }
}

impl From<ProgramExecution> for ActivityType {
    fn from(v: ProgramExecution) -> (r: Self) {
        ActivityType::ProgramExecution(v)
    }
}

impl FromSpecImpl<ProgramExecution> for ActivityType {
    open spec fn obeys_from_spec() -> bool {
        true
    }

    open spec fn from_spec(v: ProgramExecution) -> Self {
        ActivityType::ProgramExecution(v)
    }
}

impl Default for SessionId {
    fn default() -> (r: Self)
        ensures
            r is Unknown,
    {
        SessionId::Unknown
    }
}

impl Default for ActivityType {
    fn default() -> (r: Self)
        ensures
            r is Unknown,
    {
        ActivityType::Unknown
    }
}

impl Default for FileSystemActivity {
    fn default() -> (r: Self)
        ensures
            r is Unknown,
    {
        FileSystemActivity::Unknown
    }
}

impl Default for ProgramExecution {
    fn default() -> (r: Self)
        ensures
            r.executable@.len() == 0,
    {
        ProgramExecution { executable: String::new() }
    }
}

} // verus!

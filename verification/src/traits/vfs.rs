//! What a virtual file system tells of its files.
use vstd::prelude::*;
use vstd::string::*;

verus! {

/// The times, the kind and the size of a file or directory.
pub struct VMetadata {
    /// Seconds elapsed since UNIX_EPOCH in UTC
    ///
    /// this is optional, because some filesystems might not support this timestamp
    pub created: Option<usize>,
    /// Seconds elapsed since UNIX_EPOCH in UTC
    ///
    /// this is optional, because some filesystems might not support this timestamp
    pub accessed: Option<usize>,
    /// Seconds elapsed since UNIX_EPOCH in UTC
    ///
    /// this is optional, because some filesystems might not support this timestamp
    pub modified: Option<usize>,
    pub file_type: VFileType,
    pub size: u64,
}

/// What an entry of a file system is.
#[derive(PartialEq, Eq, Structural, Clone, Copy, Debug)]
pub enum VFileType {
    File,
    Directory,
    Symlink,
}

/// A time of a file, where the file system keeps it, and the start of the
/// Unix epoch where it does not.
pub open spec fn time_or_epoch(time: Option<usize>) -> usize {
    match time {
        Some(t) => t,
        None => 0,
    }
}

impl VMetadata {
    /// Seconds elapsed since UNIX_EPOCH in UTC
    pub fn created(&self) -> (r: usize)
        ensures
            r == time_or_epoch(self.created),
    {
        match self.created {
            Some(t) => t,
            None => 0,
        }
    }

    /// Seconds elapsed since UNIX_EPOCH in UTC
    pub fn accessed(&self) -> (r: usize)
        ensures
            r == time_or_epoch(self.accessed),
    {
        match self.accessed {
            Some(t) => t,
            None => 0,
        }
    }

    /// Seconds elapsed since UNIX_EPOCH in UTC
    pub fn modified(&self) -> (r: usize)
        ensures
            r == time_or_epoch(self.modified),
    {
        match self.modified {
            Some(t) => t,
            None => 0,
        }
    }

    /// Seconds elapsed since UNIX_EPOCH in UTC
    pub fn created_opt(&self) -> (r: Option<&usize>)
        ensures
            match r {
                Some(t) => self.created == Some(*t),
                None => self.created is None,
            },
    {
        self.created.as_ref()
    }

    /// Seconds elapsed since UNIX_EPOCH in UTC
    pub fn accessed_opt(&self) -> (r: Option<&usize>)
        ensures
            match r {
                Some(t) => self.accessed == Some(*t),
                None => self.accessed is None,
            },
    {
        self.accessed.as_ref()
    }

    /// Seconds elapsed since UNIX_EPOCH in UTC
    pub fn modified_opt(&self) -> (r: Option<&usize>)
        ensures
            match r {
                Some(t) => self.modified == Some(*t),
                None => self.modified is None,
            },
    {
        self.modified.as_ref()
    }

    /// Whether this is a file.
    pub fn is_file(&self) -> (r: bool)
        ensures
            r == (self.file_type is File),
    {
        self.file_type == VFileType::File
    }

    /// Whether this is a directory.
    pub fn is_dir(&self) -> (r: bool)
        ensures
            r == (self.file_type is Directory),
    {
        self.file_type == VFileType::Directory
    }

    /// Whether this is a symbolic link.
    pub fn is_symlink(&self) -> (r: bool)
        ensures
            r == (self.file_type is Symlink),
    {
        self.file_type == VFileType::Symlink
    }

    /// The size in bytes.
    pub fn len(&self) -> (r: u64)
        ensures
            r == self.size,
    {
        self.size
    }
}

/// An entry of a directory with its name.
pub enum VDirEntry {
    Directory(String),
    File(String),
    Symlink(String),
}

impl VDirEntry {
    /// The name of the entry.
    pub open spec fn name(&self) -> Seq<char> {
        match self {
            VDirEntry::Directory(v) => v@,
            VDirEntry::File(v) => v@,
            VDirEntry::Symlink(v) => v@,
        }
    }

    /// The name of the entry.
    pub fn to_string(&self) -> (s: String)
        ensures
            s@ == self.name(),
    {
        match self {
            VDirEntry::Directory(v) => v.clone(),
            VDirEntry::File(v) => v.clone(),
            VDirEntry::Symlink(v) => v.clone(),
        }
    }
}

} // verus!

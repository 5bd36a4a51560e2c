//! What most users of the library need, in one place.
pub use crate::artifact::{
    artifact_from_str, Artifact, CommonArtifact, LinuxArtifacts, LinuxService, MacArtifacts,
    OtherOS, RegistryArtifacts, WebBrowsingArtifact, WindowsArtifacts, WindowsEvents,
};
pub use crate::context::ForensicContext;
pub use crate::environment::{interpolate_env_vars, UserEnvVars, UsersEnvVars};
pub use crate::err::{BadFormatError, ForensicError, ForensicResult, MissingError};
pub use crate::traits::registry::extra::env_vars::get_env_vars_of_users;
pub use crate::traits::registry::{
    auto_close_key, RegHiveKey, RegValue, RegistryKeyInfo, RegistryReader, HKC, HKCR, HKCU, HKLM,
    HKU,
};
pub use crate::traits::vfs::{VDirEntry, VFileType, VMetadata};
pub use crate::utils::time::{filetime_to_unix_timestamp, Filetime, UnixTimestamp, WinFiletime};

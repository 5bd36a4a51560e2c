pub mod csidl;
pub mod sid;

pub use crate::utils::time::{filetime_to_unix_timestamp, UnixTimestamp, WinFiletime};
pub use sid::to_string_sid;

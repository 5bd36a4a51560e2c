pub mod registry;
pub mod vfs;

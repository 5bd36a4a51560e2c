//! Building blocks for the analysis of forensic artifacts: a contract for
//! registry backends with an implementation in memory, the reconstruction of
//! the environment variables of the users of a system from its registry,
//! and helpers for times, identifiers, paths and buffers of bytes.
//!
//! Every function of this crate is verified: its contract states what it
//! returns, and it neither panics nor overflows.
pub mod activity;
pub mod artifact;
pub mod bitacora;
pub mod context;
pub mod environment;
pub mod err;
pub mod field;
pub mod fs;
pub mod prelude;
pub mod strmap;
pub mod text;
pub mod traits;
pub mod utils;

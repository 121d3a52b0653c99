//! Git integration: file status and branch information.
//!
//! The repository is read by the caller through `git2`; this module turns
//! what was read (status bit flags, HEAD details) into the values the file
//! manager shows.

pub mod branch;
pub mod status;

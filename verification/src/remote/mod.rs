//! Remote file systems.

pub mod sftp;
pub mod known_hosts;

//! Error types for the library.
//!
//! All fallible operations return [`CoreResult<T>`], which is an alias for
//! `Result<T, CoreError>`.

use vstd::prelude::*;
use crate::text::concat;

verus! {

/// `std::io::Error`, carried through unchanged inside [`CoreError::Io`].
#[verifier::external_type_specification]
#[verifier::external_body]
pub struct ExIoError(std::io::Error);

/// Renders an I/O error with its `Display` impl (`ToString::to_string`).
/// The text depends on the operating system's error description, so nothing
/// is claimed of it.
#[verifier::external_body]
fn io_error_text(e: &std::io::Error) -> String {
    e.to_string()
}

/// Unified error type for all core operations.
///
/// Each variant captures just enough context for the caller to display
/// a meaningful message or take corrective action.
#[derive(Debug)]
pub enum CoreError {
    /// The target path does not exist.
    NotFound(String),
    /// The process lacks permission to access the path.
    PermissionDenied(String),
    /// A directory was expected but the path points to a file.
    NotADirectory(String),
    /// A file or directory name is invalid (empty, contains path separators, etc.).
    InvalidName(String),
    /// Failed to parse a TOML configuration file.
    ConfigParse(String),
    /// The user cancelled an interactive operation.
    Cancelled,
    /// A git operation failed.
    Git(String),
    /// A remote (SSH/SFTP) operation failed.
    Remote(String),
    /// An I/O error that doesn't fit a more specific variant.
    Io(std::io::Error),
}

/// Convenience alias used throughout the library.
pub type CoreResult<T> = Result<T, CoreError>;

impl CoreError {
    /// The human-readable message of this error.
    pub fn message(&self) -> (r: String)
        ensures
            self matches CoreError::NotFound(p) ==> r@ == "path not found: "@ + p@,
            self matches CoreError::PermissionDenied(p) ==> r@ == "permission denied: "@ + p@,
            self matches CoreError::NotADirectory(p) ==> r@ == "not a directory: "@ + p@,
            self matches CoreError::InvalidName(m) ==> r@ == "invalid name: "@ + m@,
            self matches CoreError::ConfigParse(m) ==> r@ == "config parse error: "@ + m@,
            self is Cancelled ==> r@ == "operation cancelled"@,
            self matches CoreError::Git(m) ==> r@ == "git error: "@ + m@,
            self matches CoreError::Remote(m) ==> r@ == "remote error: "@ + m@,
    {
        match self {
            CoreError::NotFound(p) => concat("path not found: ", p.as_str()),
            CoreError::PermissionDenied(p) => concat("permission denied: ", p.as_str()),
            CoreError::NotADirectory(p) => concat("not a directory: ", p.as_str()),
            CoreError::InvalidName(m) => concat("invalid name: ", m.as_str()),
            CoreError::ConfigParse(m) => concat("config parse error: ", m.as_str()),
            CoreError::Cancelled => "operation cancelled".to_owned(),
            CoreError::Git(m) => concat("git error: ", m.as_str()),
            CoreError::Remote(m) => concat("remote error: ", m.as_str()),
            CoreError::Io(e) => io_error_text(e),
        }
    }
}

impl From<std::io::Error> for CoreError {
    fn from(e: std::io::Error) -> (r: CoreError) {
        CoreError::Io(e)
    }
}

impl vstd::std_specs::convert::FromSpecImpl<std::io::Error> for CoreError {
    open spec fn obeys_from_spec() -> bool {
        true
    }

    open spec fn from_spec(v: std::io::Error) -> CoreError {
        CoreError::Io(v)
    }
}

} // verus!

//! Messages between a front end and the core.
//!
//! A front end turns user input into [`Command`]s, which the core carries out
//! and answers with [`Event`]s. Paths are absolute path strings.

use vstd::prelude::*;
use crate::fs::entry::FileEntry;
use crate::nav::filter::{SortDirection, SortField};

verus! {

/// An action the front end asks the core to perform.
#[derive(Debug, Clone)]
pub enum Command {
    /// Navigate into the directory at the given path.
    Navigate(String),
    /// Move to the parent directory.
    GoUp,
    /// Navigate backward in history.
    GoBack,
    /// Navigate forward in history.
    GoForward,
    /// Re-read the current directory.
    Refresh,
    /// Toggle visibility of hidden (dot-prefixed) files.
    ToggleHidden,
    /// Change the sort field and direction.
    SetSort(SortField, SortDirection),
    /// Copy the listed files to the destination directory.
    CopyFiles(Vec<String>, String),
    /// Move the listed files to the destination directory.
    MoveFiles(Vec<String>, String),
    /// Delete the listed files (after user confirmation).
    DeleteFiles(Vec<String>),
    /// Rename a file or directory.
    Rename(String, String),
    /// Move the cursor up by one entry.
    CursorUp,
    /// Move the cursor down by one entry.
    CursorDown,
    /// Activate the currently selected entry.
    Enter,
    /// Add a named bookmark pointing to the given path.
    AddBookmark(String, String),
    /// Remove the bookmark with the given label.
    RemoveBookmark(String),
    /// Navigate to the path stored under the given bookmark label.
    GoToBookmark(String),
}

/// A notification the core sends back to the front end.
#[derive(Debug, Clone)]
pub enum Event {
    /// A directory has been read.
    DirectoryLoaded { path: String, entries: Vec<FileEntry> },
    /// A file operation completed.
    OperationComplete { operation: String },
    /// A file operation failed.
    OperationFailed { operation: String, error: String },
    /// A watched file or directory changed on disk.
    FileChanged { path: String },
    /// A bookmark was added.
    BookmarkAdded(String),
    /// A bookmark was removed.
    BookmarkRemoved(String),
}

} // verus!

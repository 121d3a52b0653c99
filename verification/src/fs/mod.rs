//! File system abstractions: entries, duplicate detection, previews.

pub mod duplicates;
pub mod entry;
pub mod ops;
pub mod preview;
pub mod tree;

//! File entry representation.

use vstd::prelude::*;
use crate::text::{chars_of, nfc_composed, nfc_string, path_file_name, std_file_name};

verus! {

/// Abstract content of a [`FileEntry`].
pub struct FileEntryView {
    pub path: Seq<char>,
    pub name: Seq<char>,
    pub size: u64,
    pub modified: Option<i128>,
    pub is_dir: bool,
    pub is_hidden: bool,
    pub is_symlink: bool,
}

/// A single file or directory entry.
///
/// `FileEntry` is immutable. Directory sizes are reported as `0`. The
/// modification time is given in nanoseconds relative to the Unix epoch
/// (negative before it), which orders exactly as the timestamps do.
#[derive(Debug, Clone, PartialEq, Eq)]
pub struct FileEntry {
    path: String,
    name: String,
    size: u64,
    modified: Option<i128>,
    is_dir: bool,
    is_hidden: bool,
    is_symlink: bool,
}

impl View for FileEntry {
    type V = FileEntryView;

    closed spec fn view(&self) -> FileEntryView {
        FileEntryView {
            path: self.path@,
            name: self.name@,
            size: self.size,
            modified: self.modified,
            is_dir: self.is_dir,
            is_hidden: self.is_hidden,
            is_symlink: self.is_symlink,
        }
    }
}

/// The name `FileEntry::new` gives a path: the NFC form of its final
/// component, or the empty string when it has none.
pub open spec fn entry_name_of(path: Seq<char>) -> Seq<char> {
    match std_file_name(path) {
        Some(n) => nfc_composed(n),
        None => Seq::empty(),
    }
}

/// Whether a name starts with `.`.
pub open spec fn dot_prefixed(name: Seq<char>) -> bool {
    name.len() > 0 && name[0] == '.'
}

/// Whether `name` starts with `.`.
pub fn starts_with_dot(name: &str) -> (b: bool)
    ensures
        b == dot_prefixed(name@),
{
    let cs = chars_of(name);
    cs.len() > 0 && cs[0] == '.'
}

impl FileEntry {
    /// Creates a new `FileEntry` from a path and the metadata read for it.
    ///
    /// The name is the NFC form of the path's final component; hidden files
    /// are detected by a leading `.` in the name. Directory sizes are set to `0`.
    pub fn new(path: String, is_dir: bool, len: u64, modified: Option<i128>, is_symlink: bool) -> (e: Self)
        ensures
            e@.path == path@,
            e@.name == entry_name_of(path@),
            e@.is_hidden == dot_prefixed(e@.name),
            e@.size == (if is_dir { 0 } else { len }),
            e@.modified == modified,
            e@.is_dir == is_dir,
            e@.is_symlink == is_symlink,
    {
        let name = match path_file_name(path.as_str()) {
            Some(n) => nfc_string(n.as_str()),
            None => String::new(),
        };
        let is_hidden = starts_with_dot(name.as_str());
        FileEntry {
            path,
            name,
            size: if is_dir { 0 } else { len },
            modified,
            is_dir,
            is_hidden,
            is_symlink,
        }
    }

    /// Creates a `FileEntry` from remote SFTP metadata.
    ///
    /// Hidden files are those whose name starts with `.`, and `is_hidden`
    /// must say so. Directory sizes are always `0`; the other fields are
    /// taken as given.
    pub fn from_remote(
        path: String,
        name: String,
        size: u64,
        modified: Option<i128>,
        is_dir: bool,
        is_hidden: bool,
        is_symlink: bool,
    ) -> (e: Self)
        requires
            is_hidden == dot_prefixed(name@),
        ensures
            e@.is_hidden == dot_prefixed(e@.name),
            e@ == (FileEntryView {
                path: path@,
                name: name@,
                size: if is_dir { 0 } else { size },
                modified,
                is_dir,
                is_hidden,
                is_symlink,
            }),
    {
        FileEntry {
            path,
            name,
            size: if is_dir { 0 } else { size },
            modified,
            is_dir,
            is_hidden,
            is_symlink,
        }
    }

    /// A copy of this entry.
    pub fn duplicate(&self) -> (e: Self)
        ensures
            e == *self,
            e@ == self@,
    {
        FileEntry {
            path: self.path.clone(),
            name: self.name.clone(),
            size: self.size,
            modified: self.modified,
            is_dir: self.is_dir,
            is_hidden: self.is_hidden,
            is_symlink: self.is_symlink,
        }
    }

    /// Returns the full path of this entry.
    pub fn path(&self) -> (r: &str)
        ensures
            r@ == self@.path,
    {
        self.path.as_str()
    }

    /// Returns the file or directory name (last component of the path).
    pub fn name(&self) -> (r: &str)
        ensures
            r@ == self@.name,
    {
        self.name.as_str()
    }

    /// Returns the file size in bytes. Always `0` for directories built by this library.
    pub fn size(&self) -> (r: u64)
        ensures
            r == self@.size,
    {
        self.size
    }

    /// Returns the last-modified time, if available.
    pub fn modified(&self) -> (r: Option<i128>)
        ensures
            r == self@.modified,
    {
        self.modified
    }

    /// Returns `true` if this entry is a directory.
    pub fn is_dir(&self) -> (r: bool)
        ensures
            r == self@.is_dir,
    {
        self.is_dir
    }

    /// Returns `true` if the name starts with `.`.
    pub fn is_hidden(&self) -> (r: bool)
        ensures
            r == self@.is_hidden,
    {
        self.is_hidden
    }

    /// Returns `true` if this entry is a symbolic link.
    pub fn is_symlink(&self) -> (r: bool)
        ensures
            r == self@.is_symlink,
    {
        self.is_symlink
    }
}

/// A copy of a list of entries.
pub fn clone_entries(v: &[FileEntry]) -> (r: Vec<FileEntry>)
    ensures
        r@ == v@,
{
    let mut out: Vec<FileEntry> = Vec::new();
    for i in 0..v.len()
        invariant
            out@ == v@.take(i as int),
    {
        out.push(v[i].duplicate());
        assert(out@ =~= v@.take(i + 1));
    }
    assert(v@.take(v.len() as int) =~= v@);
    out
}

} // verus!

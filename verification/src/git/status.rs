//! Git file status.

use vstd::prelude::*;
use crate::text::{path_eq, std_path_eq};

verus! {

/// The git status of an individual file.
#[derive(Debug, Clone, Copy, PartialEq, Eq, Structural)]
pub enum GitFileStatus {
    /// File has been modified in the working tree or index.
    Modified,
    /// File is staged for addition (new file in index).
    Added,
    /// File has been deleted.
    Deleted,
    /// File has been renamed.
    Renamed,
    /// File is not tracked by git.
    Untracked,
    /// File is ignored via `.gitignore`.
    Ignored,
    /// File is unchanged (clean).
    Unchanged,
}

/// `git2::Status` flag bits (libgit2's `git_status_t`).
pub const STATUS_INDEX_NEW: u32 = 1;
pub const STATUS_INDEX_MODIFIED: u32 = 2;
pub const STATUS_INDEX_DELETED: u32 = 4;
pub const STATUS_INDEX_RENAMED: u32 = 8;
pub const STATUS_INDEX_TYPECHANGE: u32 = 16;
pub const STATUS_WT_NEW: u32 = 128;
pub const STATUS_WT_MODIFIED: u32 = 256;
pub const STATUS_WT_DELETED: u32 = 512;
pub const STATUS_WT_TYPECHANGE: u32 = 1024;
pub const STATUS_WT_RENAMED: u32 = 2048;
pub const STATUS_IGNORED: u32 = 16384;

/// Flag `flag` is set in `bits`.
pub open spec fn has_flag(bits: u32, flag: u32) -> bool {
    bits & flag != 0
}

/// The status a file with git status flags `bits` is shown with; the first
/// matching rule wins: ignored, staged as new, untracked, renamed, deleted,
/// modified (content or type), otherwise unchanged.
pub open spec fn status_of_bits(bits: u32) -> GitFileStatus {
    if has_flag(bits, STATUS_IGNORED) {
        GitFileStatus::Ignored
    } else if has_flag(bits, STATUS_INDEX_NEW) {
        GitFileStatus::Added
    } else if has_flag(bits, STATUS_WT_NEW) {
        GitFileStatus::Untracked
    } else if has_flag(bits, STATUS_WT_RENAMED) || has_flag(bits, STATUS_INDEX_RENAMED) {
        GitFileStatus::Renamed
    } else if has_flag(bits, STATUS_WT_DELETED) || has_flag(bits, STATUS_INDEX_DELETED) {
        GitFileStatus::Deleted
    } else if has_flag(bits, STATUS_WT_MODIFIED) || has_flag(bits, STATUS_INDEX_MODIFIED) || has_flag(
        bits,
        STATUS_WT_TYPECHANGE,
    ) || has_flag(bits, STATUS_INDEX_TYPECHANGE) {
        GitFileStatus::Modified
    } else {
        GitFileStatus::Unchanged
    }
}

/// Maps `git2::Status` flag bits to the simplified [`GitFileStatus`].
pub fn map_git2_status(bits: u32) -> (s: GitFileStatus)
    ensures
        s == status_of_bits(bits),
{
    if bits & STATUS_IGNORED != 0 {
        return GitFileStatus::Ignored;
    }
    if bits & STATUS_INDEX_NEW != 0 {
        return GitFileStatus::Added;
    }
    if bits & STATUS_WT_NEW != 0 {
        return GitFileStatus::Untracked;
    }
    if bits & STATUS_WT_RENAMED != 0 || bits & STATUS_INDEX_RENAMED != 0 {
        return GitFileStatus::Renamed;
    }
    if bits & STATUS_WT_DELETED != 0 || bits & STATUS_INDEX_DELETED != 0 {
        return GitFileStatus::Deleted;
    }
    if bits & STATUS_WT_MODIFIED != 0 || bits & STATUS_INDEX_MODIFIED != 0 || bits & STATUS_WT_TYPECHANGE != 0
        || bits & STATUS_INDEX_TYPECHANGE != 0 {
        return GitFileStatus::Modified;
    }
    GitFileStatus::Unchanged
}

/// The order in which git flags decide a file's status: an ignored file is
/// `Ignored`; otherwise a file staged as new is `Added`; otherwise a new
/// working-tree file is `Untracked`; otherwise a renamed file is `Renamed`;
/// otherwise a deleted file (staged or not) is `Deleted`, whatever
/// modification flags it also carries; otherwise a modified or re-typed file
/// is `Modified`; a file with none of these flags is `Unchanged`.
pub proof fn law_status_priority(bits: u32)
    ensures
        bits & STATUS_IGNORED != 0 ==> status_of_bits(bits) == GitFileStatus::Ignored,
        bits & STATUS_IGNORED == 0 && bits & STATUS_INDEX_NEW != 0 ==> status_of_bits(bits) == GitFileStatus::Added,
        bits & STATUS_IGNORED == 0 && bits & STATUS_INDEX_NEW == 0 && bits & STATUS_WT_NEW != 0
            ==> status_of_bits(bits) == GitFileStatus::Untracked,
        bits & STATUS_IGNORED == 0 && bits & STATUS_INDEX_NEW == 0 && bits & STATUS_WT_NEW == 0
            && (bits & STATUS_WT_RENAMED != 0 || bits & STATUS_INDEX_RENAMED != 0)
            ==> status_of_bits(bits) == GitFileStatus::Renamed,
        bits & STATUS_IGNORED == 0 && bits & STATUS_INDEX_NEW == 0 && bits & STATUS_WT_NEW == 0
            && bits & STATUS_WT_RENAMED == 0 && bits & STATUS_INDEX_RENAMED == 0
            && (bits & STATUS_WT_DELETED != 0 || bits & STATUS_INDEX_DELETED != 0)
            ==> status_of_bits(bits) == GitFileStatus::Deleted,
        bits & STATUS_IGNORED == 0 && bits & STATUS_INDEX_NEW == 0 && bits & STATUS_WT_NEW == 0
            && bits & STATUS_WT_RENAMED == 0 && bits & STATUS_INDEX_RENAMED == 0
            && bits & STATUS_WT_DELETED == 0 && bits & STATUS_INDEX_DELETED == 0
            && (bits & STATUS_WT_MODIFIED != 0 || bits & STATUS_INDEX_MODIFIED != 0
                || bits & STATUS_WT_TYPECHANGE != 0 || bits & STATUS_INDEX_TYPECHANGE != 0)
            ==> status_of_bits(bits) == GitFileStatus::Modified,
        bits & (STATUS_IGNORED | STATUS_INDEX_NEW | STATUS_WT_NEW | STATUS_WT_RENAMED | STATUS_INDEX_RENAMED
            | STATUS_WT_DELETED | STATUS_INDEX_DELETED | STATUS_WT_MODIFIED | STATUS_INDEX_MODIFIED
            | STATUS_WT_TYPECHANGE | STATUS_INDEX_TYPECHANGE) == 0 ==> status_of_bits(bits) == GitFileStatus::Unchanged,
{
    assert(bits & (STATUS_IGNORED | STATUS_INDEX_NEW | STATUS_WT_NEW | STATUS_WT_RENAMED | STATUS_INDEX_RENAMED
        | STATUS_WT_DELETED | STATUS_INDEX_DELETED | STATUS_WT_MODIFIED | STATUS_INDEX_MODIFIED
        | STATUS_WT_TYPECHANGE | STATUS_INDEX_TYPECHANGE) == 0 ==> bits & 16384 == 0 && bits & 1 == 0
        && bits & 128 == 0 && bits & 2048 == 0 && bits & 8 == 0 && bits & 512 == 0 && bits & 4 == 0
        && bits & 256 == 0 && bits & 2 == 0 && bits & 1024 == 0 && bits & 16 == 0) by (bit_vector);
}

/// The status recorded for `path` (by `Path` equality; a later record for
/// the same path replaces an earlier one), or `Unchanged` when none is.
pub open spec fn status_lookup(statuses: Seq<(String, GitFileStatus)>, path: Seq<char>) -> GitFileStatus
    decreases statuses.len(),
{
    if statuses.len() == 0 {
        GitFileStatus::Unchanged
    } else if std_path_eq(statuses.last().0@, path) {
        statuses.last().1
    } else {
        status_lookup(statuses.drop_last(), path)
    }
}

/// Looks up the status of a single path in a pre-computed status list.
///
/// Returns [`GitFileStatus::Unchanged`] when the path is not present
/// (i.e. git considers it clean).
pub fn get_status_for_path(statuses: &[(String, GitFileStatus)], path: &str) -> (s: GitFileStatus)
    ensures
        s == status_lookup(statuses@, path@),
{
    let mut i = statuses.len();
    proof {
        assert(statuses@.take(i as int) =~= statuses@);
    }
    while i > 0
        invariant
            i <= statuses@.len(),
            status_lookup(statuses@, path@) == status_lookup(statuses@.take(i as int), path@),
        decreases i,
    {
        proof {
            assert(statuses@.take(i as int).drop_last() =~= statuses@.take(i - 1));
            assert(statuses@.take(i as int).last() == statuses@[i - 1]);
        }
        if path_eq(statuses[i - 1].0.as_str(), path) {
            return statuses[i - 1].1;
        }
        i = i - 1;
    }
    GitFileStatus::Unchanged
}

} // verus!

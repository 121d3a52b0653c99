//! Git branch and HEAD information.

use vstd::prelude::*;
use crate::git::status::{has_flag, STATUS_IGNORED};
use crate::text::{chars_of, string_from_chars, to_owned_string};

verus! {

/// Summary of the repository's current branch state.
#[derive(Debug, Clone, PartialEq, Eq)]
pub struct BranchInfo {
    /// Branch name, or `"HEAD"` when detached.
    pub name: String,
    /// `true` when HEAD does not point to a branch.
    pub is_detached: bool,
    /// First 7 characters of the HEAD commit hash, if available.
    pub commit_short: Option<String>,
    /// `true` when the working tree has any uncommitted changes.
    pub is_dirty: bool,
}

impl BranchInfo {
    /// A copy of this record.
    pub fn duplicate(&self) -> (r: Self)
        ensures
            r == *self,
    {
        BranchInfo {
            name: self.name.clone(),
            is_detached: self.is_detached,
            commit_short: match &self.commit_short {
                Some(c) => Some(c.clone()),
                None => None,
            },
            is_dirty: self.is_dirty,
        }
    }
}

/// Some file has a status other than clean that is not an ignore.
pub open spec fn dirty_bits(bits: Seq<u32>) -> bool {
    exists|i: int| 0 <= i < bits.len() && !has_flag(bits[i], STATUS_IGNORED) && bits[i] != 0
}

/// Whether a working tree whose files have the given status flag bits has
/// uncommitted changes: some file is neither ignored nor current.
pub fn check_dirty(bits: &[u32]) -> (b: bool)
    ensures
        b == dirty_bits(bits@),
{
    let mut i: usize = 0;
    while i < bits.len()
        invariant
            i <= bits@.len(),
            forall|k: int| 0 <= k < i ==> !(!has_flag(bits@[k], STATUS_IGNORED) && bits@[k] != 0),
        decreases bits.len() - i,
    {
        if bits[i] & STATUS_IGNORED == 0 && bits[i] != 0 {
            proof {
                assert(!has_flag(bits@[i as int], STATUS_IGNORED) && bits@[i as int] != 0);
            }
            return true;
        }
        i = i + 1;
    }
    false
}

/// Branch information from what was read of HEAD: whether it is detached,
/// its short name (`Reference::shorthand`), the hex id of the commit it
/// points at, and the status flag bits of the files.
pub fn branch_info_from(
    is_detached: bool,
    shorthand: Option<String>,
    head_oid_hex: Option<String>,
    status_bits: &[u32],
) -> (b: BranchInfo)
    requires
        head_oid_hex matches Some(h) ==> h@.len() >= 7,
    ensures
        b.name@ == if is_detached {
            "HEAD"@
        } else {
            match shorthand {
                Some(n) => n@,
                None => "HEAD"@,
            }
        },
        b.is_detached == is_detached,
        b.commit_short is Some <==> head_oid_hex is Some,
        b.commit_short matches Some(c) ==> c@ == head_oid_hex.unwrap()@.take(7),
        b.is_dirty == dirty_bits(status_bits@),
{
    let name = if is_detached {
        to_owned_string("HEAD")
    } else {
        match shorthand {
            Some(n) => n,
            None => to_owned_string("HEAD"),
        }
    };
    let commit_short = match head_oid_hex {
        Some(h) => {
            let cs = chars_of(h.as_str());
            let mut short: Vec<char> = Vec::new();
            for i in 0..7
                invariant
                    cs@.len() >= 7,
                    short@ == cs@.take(i as int),
            {
                short.push(cs[i]);
                proof {
                    assert(short@ =~= cs@.take(i + 1));
                }
            }
            Some(string_from_chars(short.as_slice()))
        },
        None => None,
    };
    BranchInfo { name, is_detached, commit_short, is_dirty: check_dirty(status_bits) }
}

} // verus!

//! File operations: the decisions of directory walks, recent files and
//! duplicate detection.
//!
//! Reading the disk is left to the caller, which reports what it found as
//! plain values ([`PathProbe`], the entries a walk collected, the digests of
//! file contents); this module decides what a walk visits and computes the
//! results.

use sha2::Digest;
use vstd::prelude::*;
use crate::error::{CoreError, CoreResult};
use crate::fs::entry::{dot_prefixed, starts_with_dot, FileEntry};
use crate::sort::{
    index_hit, is_perm_by, is_stable_sort, is_stable_sort_by, lemma_stable_sort_by_keys, stable_sort, stably_ordered,
    DescKey, SortKey,
};
use crate::fs::entry::clone_entries;
use crate::text::{chars_of, str_eq, to_owned_string};

verus! {

/// A group of files with identical content.
#[derive(Debug, Clone)]
pub struct DuplicateGroup {
    /// File size in bytes (shared by all files in the group).
    pub size: u64,
    /// SHA-256 hex digest of the file content.
    pub hash: String,
    /// Files that share the same content (always 2+).
    pub files: Vec<FileEntry>,
}

/// Abstract content of a [`DuplicateGroup`].
pub struct DuplicateGroupView {
    pub size: u64,
    pub hash: Seq<char>,
    pub files: Seq<FileEntry>,
}

impl View for DuplicateGroup {
    type V = DuplicateGroupView;

    open spec fn view(&self) -> DuplicateGroupView {
        DuplicateGroupView { size: self.size, hash: self.hash@, files: self.files@ }
    }
}

impl DuplicateGroup {
    /// A copy of this group.
    pub fn duplicate(&self) -> (r: Self)
        ensures
            r@ == self@,
    {
        DuplicateGroup { size: self.size, hash: self.hash.clone(), files: clone_entries(self.files.as_slice()) }
    }
}

/// What the file system reported about the root path of an operation.
#[derive(Debug, Clone, Copy, PartialEq, Eq)]
pub struct PathProbe {
    /// The path exists.
    pub exists: bool,
    /// The path is a directory.
    pub is_dir: bool,
}

/// Largest file, in bytes, whose content duplicate detection reads (100 MB).
pub const MAX_HASH_FILE_SIZE: u64 = 104857600;

/// What a recursive walk does with one directory entry.
#[derive(Debug, Clone, Copy, PartialEq, Eq)]
pub enum WalkStep {
    /// Leave the entry out.
    Skip,
    /// Walk into the directory with the given remaining depth.
    Descend(usize),
    /// Collect the entry as a file.
    Collect,
}

/// `excluded` holds `name`.
pub open spec fn names_contain(excluded: Seq<&str>, name: Seq<char>) -> bool {
    exists|i: int| 0 <= i < excluded.len() && excluded[i]@ == name
}

/// The step a walk takes for an entry: hidden names are skipped unless shown;
/// directories are skipped when excluded or when no depth is left, and
/// entered otherwise; everything else is collected.
pub open spec fn walk_step_spec(
    name: Seq<char>,
    is_dir: bool,
    depth_remaining: usize,
    show_hidden: bool,
    excluded: Seq<&str>,
) -> WalkStep {
    if !show_hidden && dot_prefixed(name) {
        WalkStep::Skip
    } else if is_dir {
        if names_contain(excluded, name) || depth_remaining == 0 {
            WalkStep::Skip
        } else {
            WalkStep::Descend((depth_remaining - 1) as usize)
        }
    } else {
        WalkStep::Collect
    }
}

/// Decides what a recursive walk does with the entry `name` found with
/// `depth_remaining` levels left below it.
pub fn walk_step(
    name: &str,
    is_dir: bool,
    depth_remaining: usize,
    show_hidden: bool,
    excluded: &[&str],
) -> (r: WalkStep)
    ensures
        r == walk_step_spec(name@, is_dir, depth_remaining, show_hidden, excluded@),
{
    if !show_hidden && starts_with_dot(name) {
        return WalkStep::Skip;
    }
    if is_dir {
        let mut i: usize = 0;
        while i < excluded.len()
            invariant
                i <= excluded.len(),
                is_dir,
                !(!show_hidden && dot_prefixed(name@)),
                forall|k: int| 0 <= k < i ==> (#[trigger] excluded@[k])@ != name@,
            decreases excluded.len() - i,
        {
            if str_eq(excluded[i], name) {
                proof {
                    assert(excluded@[i as int]@ == name@);
                    assert(names_contain(excluded@, name@));
                }
                return WalkStep::Skip;
            }
            i = i + 1;
        }
        if depth_remaining == 0 {
            WalkStep::Skip
        } else {
            WalkStep::Descend(depth_remaining - 1)
        }
    } else {
        WalkStep::Collect
    }
}

/// A valid new name for a file: not empty, not `.` or `..`, and free of
/// `/` and NUL.
pub open spec fn valid_filename(name: Seq<char>) -> bool {
    &&& name.len() > 0
    &&& name != seq!['.']
    &&& name != seq!['.', '.']
    &&& !name.contains('/')
    &&& !name.contains('\0')
}

/// Whether `name` can be given to a file by a rename.
pub fn is_valid_filename(name: &str) -> (b: bool)
    ensures
        b == valid_filename(name@),
{
    let cs = chars_of(name);
    if cs.len() == 0 {
        return false;
    }
    if cs.len() == 1 && cs[0] == '.' {
        proof {
            assert(cs@ =~= seq!['.']);
        }
        return false;
    }
    if cs.len() == 2 && cs[0] == '.' && cs[1] == '.' {
        proof {
            assert(cs@ =~= seq!['.', '.']);
        }
        return false;
    }
    let mut i: usize = 0;
    while i < cs.len()
        invariant
            i <= cs.len(),
            cs@ == name@,
            forall|k: int| 0 <= k < i ==> cs@[k] != '/' && cs@[k] != '\0',
        decreases cs.len() - i,
    {
        if cs[i] == '/' || cs[i] == '\0' {
            proof {
                assert(name@[i as int] == cs@[i as int]);
                assert(name@.contains('/') || name@.contains('\0'));
            }
            return false;
        }
        i = i + 1;
    }
    proof {
        if cs@.len() == 1 {
            assert(cs@ != seq!['.']) by {
                assert(seq!['.'][0] == '.');
            }
        }
        if cs@.len() == 2 {
            assert(cs@ != seq!['.', '.']) by {
                assert(seq!['.', '.'][0] == '.');
                assert(seq!['.', '.'][1] == '.');
            }
        }
    }
    true
}

/// Error of an operation rooted at `path`: `NotFound` when the path does not
/// exist, `NotADirectory` when it is not a directory.
pub open spec fn root_error(path: Seq<char>, probe: PathProbe, err: CoreError) -> bool {
    if !probe.exists {
        err matches CoreError::NotFound(p) && p@ == path
    } else {
        err matches CoreError::NotADirectory(p) && p@ == path
    }
}

/// Checks the root of an operation.
fn check_root(path: &str, probe: PathProbe) -> (r: CoreResult<()>)
    ensures
        r is Ok <==> probe.exists && probe.is_dir,
        r matches Err(e) ==> root_error(path@, probe, e),
{
    if !probe.exists {
        return Err(CoreError::NotFound(to_owned_string(path)));
    }
    if !probe.is_dir {
        return Err(CoreError::NotADirectory(to_owned_string(path)));
    }
    Ok(())
}

/// Modification time of an entry for recency ordering; an unknown time
/// counts as the Unix epoch.
pub open spec fn recency(e: FileEntry) -> int {
    match e@.modified {
        Some(t) => t as int,
        None => 0,
    }
}

/// Newest first.
pub open spec fn recency_order() -> spec_fn(FileEntry, FileEntry) -> int {
    |a: FileEntry, b: FileEntry| if recency(a) > recency(b) {
        -1
    } else if recency(a) < recency(b) {
        1
    } else {
        0
    }
}

/// The first `max_results` entries of `files` stably sorted newest first.
pub fn newest_first(files: Vec<FileEntry>, max_results: usize) -> (r: Vec<FileEntry>)
    ensures
        exists|sorted: Seq<FileEntry>|
            is_stable_sort_by(sorted, files@, recency_order()) && r@ == (if max_results < sorted.len() {
                sorted.take(max_results as int)
            } else {
                sorted
            }),
{
    let mut keys: Vec<DescKey> = Vec::new();
    for i in 0..files.len()
        invariant
            keys.len() == i,
            forall|k: int| 0 <= k < i ==> (#[trigger] keys@[k]).0 == recency(files@[k]),
    {
        let t: i128 = match files[i].modified() {
            Some(t) => t,
            None => 0,
        };
        keys.push(DescKey(t));
    }
    let ghost kv = keys@;
    let ghost inp = files@;
    let mut sorted = stable_sort(files, keys);
    proof {
        assert forall|i: int, j: int|
            0 <= i < inp.len() && 0 <= j < inp.len() implies (#[trigger] kv[i]).key_order(#[trigger] kv[j])
            == recency_order()(inp[i], inp[j]) by {}
        lemma_stable_sort_by_keys(sorted@, inp, kv, recency_order());
    }
    let ghost full = sorted@;
    sorted.truncate(max_results);
    proof {
        if max_results < full.len() {
            assert(sorted@ =~= full.take(max_results as int));
        } else {
            assert(sorted@ =~= full);
        }
    }
    sorted
}

/// Finds recently modified files under `path`, sorted newest first.
///
/// `probe` is what the file system reported of `path`; `files` are the files
/// a walk of it collected (see [`walk_step`]). Returns at most `max_results`
/// of them, newest first (files with equal times keep their walk order).
///
/// # Errors
///
/// - [`CoreError::NotFound`] — the path does not exist.
/// - [`CoreError::NotADirectory`] — the path is not a directory.
pub fn find_recent_files(
    path: &str,
    probe: PathProbe,
    files: Vec<FileEntry>,
    max_results: usize,
) -> (r: CoreResult<Vec<FileEntry>>)
    ensures
        r is Ok <==> probe.exists && probe.is_dir,
        r matches Err(e) ==> root_error(path@, probe, e),
        r matches Ok(v) ==> exists|sorted: Seq<FileEntry>|
            is_stable_sort_by(sorted, files@, recency_order()) && v@ == (if max_results < sorted.len() {
                sorted.take(max_results as int)
            } else {
                sorted
            }),
{
    match check_root(path, probe) {
        Err(e) => Err(e),
        Ok(()) => Ok(newest_first(files, max_results)),
    }
}

/// Item `i` takes part in duplicate detection: its content was digested
/// and it is no larger than [`MAX_HASH_FILE_SIZE`].
pub open spec fn eligible(files: Seq<FileEntry>, digests: Seq<Option<String>>, i: int) -> bool {
    &&& digests[i] is Some
    &&& files[i]@.size <= MAX_HASH_FILE_SIZE
}

/// Item `i` is eligible and has the content key (`size`, `hash`).
pub open spec fn has_key(files: Seq<FileEntry>, digests: Seq<Option<String>>, i: int, size: u64, hash: Seq<char>) -> bool {
    &&& eligible(files, digests, i)
    &&& files[i]@.size == size
    &&& digests[i].unwrap()@ == hash
}

/// The files among the first `n` items with the content key (`size`, `hash`), in order.
pub open spec fn members(
    files: Seq<FileEntry>,
    digests: Seq<Option<String>>,
    n: int,
    size: u64,
    hash: Seq<char>,
) -> Seq<FileEntry>
    decreases n,
{
    if n <= 0 {
        Seq::empty()
    } else {
        let r = members(files, digests, n - 1, size, hash);
        if has_key(files, digests, n - 1, size, hash) {
            r.push(files[n - 1])
        } else {
            r
        }
    }
}

/// `groups` are the duplicate groups of the walked `files` with content
/// `digests`: each group holds, in walk order, all the eligible files of one
/// content key (size and digest), at least two of them; no key has two
/// groups; every key shared by two or more eligible files has a group; and
/// groups come largest size first.
pub open spec fn duplicate_groups_of(files: Seq<FileEntry>, digests: Seq<Option<String>>, groups: Seq<DuplicateGroupView>) -> bool {
    &&& forall|j: int|
        0 <= j < groups.len() ==> (#[trigger] groups[j]).files == members(
            files,
            digests,
            files.len() as int,
            groups[j].size,
            groups[j].hash,
        ) && groups[j].files.len() >= 2
    &&& forall|j: int, k: int|
        0 <= j < k < groups.len() ==> !((#[trigger] groups[j]).size == (#[trigger] groups[k]).size
            && groups[j].hash == groups[k].hash)
    &&& forall|i: int|
        0 <= i < files.len() && eligible(files, digests, i) && members(
            files,
            digests,
            files.len() as int,
            files[i]@.size,
            digests[i].unwrap()@,
        ).len() >= 2 ==> exists|j: int|
            0 <= j < groups.len() && (#[trigger] groups[j]).size == files[i]@.size && groups[j].hash
                == digests[i].unwrap()@
    &&& forall|j: int, k: int| 0 <= j < k < groups.len() ==> (#[trigger] groups[j]).size >= (#[trigger] groups[k]).size
}

proof fn lemma_members_none(files: Seq<FileEntry>, digests: Seq<Option<String>>, n: int, size: u64, hash: Seq<char>)
    requires
        forall|k: int| 0 <= k < n ==> !#[trigger] has_key(files, digests, k, size, hash),
    ensures
        members(files, digests, n, size, hash) == Seq::<FileEntry>::empty(),
    decreases n,
{
    if n > 0 {
        lemma_members_none(files, digests, n - 1, size, hash);
    }
}

/// Groups the walked files by content key, in order of first occurrence.
fn collect_classes(files: &Vec<FileEntry>, digests: &Vec<Option<String>>) -> (r: Vec<DuplicateGroup>)
    requires
        digests@.len() == files@.len(),
    ensures
        forall|j: int|
            0 <= j < r@.len() ==> (#[trigger] r@[j])@.files == members(
                files@,
                digests@,
                files@.len() as int,
                r@[j].size,
                r@[j].hash@,
            ),
        forall|j: int, k: int|
            0 <= j < k < r@.len() ==> !((#[trigger] r@[j]).size == (#[trigger] r@[k]).size && r@[j].hash@ == r@[k].hash@),
        forall|i: int|
            0 <= i < files@.len() && eligible(files@, digests@, i) ==> exists|j: int|
                0 <= j < r@.len() && (#[trigger] r@[j]).size == files@[i]@.size && r@[j].hash@
                    == digests@[i].unwrap()@,
{
    let ghost fv = files@;
    let ghost dv = digests@;
    let mut groups: Vec<DuplicateGroup> = Vec::new();
    for i in 0..files.len()
        invariant
            fv == files@,
            dv == digests@,
            dv.len() == fv.len(),
            forall|j: int|
                0 <= j < groups@.len() ==> (#[trigger] groups@[j])@.files == members(
                    fv,
                    dv,
                    i as int,
                    groups@[j].size,
                    groups@[j].hash@,
                ),
            forall|j: int, k: int|
                0 <= j < k < groups@.len() ==> !((#[trigger] groups@[j]).size == (#[trigger] groups@[k]).size
                    && groups@[j].hash@ == groups@[k].hash@),
            forall|k: int|
                0 <= k < i && eligible(fv, dv, k) ==> exists|j: int|
                    0 <= j < groups@.len() && (#[trigger] groups@[j]).size == fv[k]@.size && groups@[j].hash@
                        == dv[k].unwrap()@,
    {
        let size = files[i].size();
        match &digests[i] {
            Some(d) => {
                if size <= MAX_HASH_FILE_SIZE {
                    let ghost old_groups = groups@;
                    let mut j: usize = 0;
                    let mut found = false;
                    while j < groups.len()
                        invariant_except_break
                            !found,
                            forall|m: int| 0 <= m < j ==> !((#[trigger] groups@[m]).size == size && groups@[m].hash@ == d@),
                        invariant
                            j <= groups@.len(),
                            groups@ == old_groups,
                        ensures
                            found ==> j < groups@.len() && groups@[j as int].size == size && groups@[j as int].hash@ == d@,
                            !found ==> forall|m: int|
                                0 <= m < groups@.len() ==> !((#[trigger] groups@[m]).size == size && groups@[m].hash@ == d@),
                        decreases groups.len() - j,
                    {
                        if groups[j].size == size && str_eq(groups[j].hash.as_str(), d.as_str()) {
                            found = true;
                            break;
                        }
                        j = j + 1;
                    }
                    if found {
                        let mut fs = clone_entries(groups[j].files.as_slice());
                        fs.push(files[i].duplicate());
                        let g = DuplicateGroup { size, hash: groups[j].hash.clone(), files: fs };
                        groups.set(j, g);
                        proof {
                            assert forall|m: int| 0 <= m < groups@.len() implies (#[trigger] groups@[m])@.files
                                == members(fv, dv, i + 1, groups@[m].size, groups@[m].hash@) by {
                                if m != j {
                                    assert(groups@[m] == old_groups[m]);
                                    assert(!has_key(fv, dv, i as int, groups@[m].size, groups@[m].hash@)) by {
                                        if m < j {
                                            assert(!(old_groups[m as int].size == old_groups[j as int].size
                                                && old_groups[m as int].hash@ == old_groups[j as int].hash@));
                                        } else {
                                            assert(!(old_groups[j as int].size == old_groups[m as int].size
                                                && old_groups[j as int].hash@ == old_groups[m as int].hash@));
                                        }
                                    }
                                }
                            }
                            assert forall|a: int, b: int| 0 <= a < b < groups@.len() implies !((#[trigger] groups@[a]).size
                                == (#[trigger] groups@[b]).size && groups@[a].hash@ == groups@[b].hash@) by {
                                assert(!(old_groups[a].size == old_groups[b].size && old_groups[a].hash@ == old_groups[b].hash@));
                            }
                            assert forall|k: int| 0 <= k < i + 1 && eligible(fv, dv, k) implies exists|m: int|
                                0 <= m < groups@.len() && (#[trigger] groups@[m]).size == fv[k]@.size && groups@[m].hash@
                                    == dv[k].unwrap()@ by {
                                if k == i {
                                    assert(groups@[j as int].size == fv[k]@.size);
                                } else {
                                    let m = choose|m: int|
                                        0 <= m < old_groups.len() && (#[trigger] old_groups[m]).size == fv[k]@.size
                                            && old_groups[m].hash@ == dv[k].unwrap()@;
                                    assert(groups@[m].size == fv[k]@.size);
                                }
                            }
                        }
                    } else {
                        proof {
                            assert forall|k: int| 0 <= k < i implies !#[trigger] has_key(fv, dv, k, size, d@) by {
                                if has_key(fv, dv, k, size, d@) {
                                    let m = choose|m: int|
                                        0 <= m < old_groups.len() && (#[trigger] old_groups[m]).size == fv[k]@.size
                                            && old_groups[m].hash@ == dv[k].unwrap()@;
                                }
                            }
                            lemma_members_none(fv, dv, i as int, size, d@);
                        }
                        let mut fs: Vec<FileEntry> = Vec::new();
                        fs.push(files[i].duplicate());
                        let g = DuplicateGroup { size, hash: d.clone(), files: fs };
                        groups.push(g);
                        proof {
                            assert(members(fv, dv, i + 1, size, d@) =~= seq![fv[i as int]]);
                            assert forall|m: int| 0 <= m < groups@.len() implies (#[trigger] groups@[m])@.files
                                == members(fv, dv, i + 1, groups@[m].size, groups@[m].hash@) by {
                                if m < old_groups.len() {
                                    assert(groups@[m] == old_groups[m]);
                                    assert(!(old_groups[m].size == size && old_groups[m].hash@ == d@));
                                    assert(!has_key(fv, dv, i as int, old_groups[m].size, old_groups[m].hash@));
                                }
                            }
                            assert forall|k: int| 0 <= k < i + 1 && eligible(fv, dv, k) implies exists|m: int|
                                0 <= m < groups@.len() && (#[trigger] groups@[m]).size == fv[k]@.size && groups@[m].hash@
                                    == dv[k].unwrap()@ by {
                                if k == i {
                                    assert(groups@[old_groups.len() as int].size == fv[k]@.size);
                                } else {
                                    let m = choose|m: int|
                                        0 <= m < old_groups.len() && (#[trigger] old_groups[m]).size == fv[k]@.size
                                            && old_groups[m].hash@ == dv[k].unwrap()@;
                                    assert(groups@[m].size == fv[k]@.size);
                                }
                            }
                        }
                    }
                }
            },
            None => {},
        }
        proof {
            if !eligible(fv, dv, i as int) {
                assert forall|m: int| 0 <= m < groups@.len() implies (#[trigger] groups@[m])@.files
                    == members(fv, dv, i + 1, groups@[m].size, groups@[m].hash@) by {
                    assert(groups@[m]@.files == members(fv, dv, i as int, groups@[m].size, groups@[m].hash@));
                }
            }
        }
    }
    groups
}

/// Groups the walked `files` by content, given the digest of each file's
/// content (`None` where it was not read). Files larger than
/// [`MAX_HASH_FILE_SIZE`] take no part; only keys shared by two or more
/// files make a group; groups come largest size first.
pub fn group_duplicates(files: &Vec<FileEntry>, digests: &Vec<Option<String>>) -> (r: Vec<DuplicateGroup>)
    requires
        digests@.len() == files@.len(),
    ensures
        duplicate_groups_of(files@, digests@, r@.map_values(|g: DuplicateGroup| g@)),
{
    let ghost fv = files@;
    let ghost dv = digests@;
    let ghost n = files@.len() as int;
    let classes = collect_classes(files, digests);
    let ghost cv = classes@;
    // Keep the classes of two or more files; `src` maps each kept group to its class.
    let mut kept: Vec<DuplicateGroup> = Vec::new();
    let ghost mut src: Seq<int> = Seq::empty();
    for c in 0..classes.len()
        invariant
            cv == classes@,
            src.len() == kept@.len(),
            forall|m: int| 0 <= m < src.len() ==> 0 <= #[trigger] src[m] < c,
            forall|m: int, l: int| 0 <= m < l < src.len() ==> #[trigger] src[m] < #[trigger] src[l],
            forall|m: int| 0 <= m < kept@.len() ==> (#[trigger] kept@[m])@ == cv[src[m]]@,
            forall|m: int| 0 <= m < kept@.len() ==> (#[trigger] kept@[m])@.files.len() >= 2,
            forall|q: int| 0 <= q < c && cv[q]@.files.len() >= 2 ==> exists|m: int|
                0 <= m < src.len() && #[trigger] src[m] == q,
    {
        if classes[c].files.len() >= 2 {
            let ghost before = src;
            kept.push(classes[c].duplicate());
            proof {
                src = src.push(c as int);
                assert forall|q: int| 0 <= q < c + 1 && cv[q]@.files.len() >= 2 implies exists|m: int|
                    0 <= m < src.len() && #[trigger] src[m] == q by {
                    if q == c {
                        assert(src[src.len() - 1] == q);
                    } else {
                        let m = choose|m: int| 0 <= m < before.len() && #[trigger] before[m] == q;
                        assert(src[m] == q);
                    }
                }
            }
        }
    }
    let mut keys: Vec<DescKey> = Vec::new();
    for m in 0..kept.len()
        invariant
            keys.len() == m,
            forall|k: int| 0 <= k < m ==> (#[trigger] keys@[k]).0 == kept@[k].size as int,
    {
        keys.push(DescKey(kept[m].size as i128));
    }
    let ghost kv = kept@;
    let ghost keyv = keys@;
    let sorted = stable_sort(kept, keys);
    proof {
        let sv = sorted@;
        let p = choose|p: Seq<int>| is_perm_by(sv, kv, p) && stably_ordered(keyv, p);
        let rv = sv.map_values(|g: DuplicateGroup| g@);
        assert forall|j: int| 0 <= j < rv.len() implies (#[trigger] rv[j]).files == members(
            fv,
            dv,
            fv.len() as int,
            rv[j].size,
            rv[j].hash,
        ) && rv[j].files.len() >= 2 by {
            assert(sv[j] == kv[p[j]]);
            assert(kv[p[j]]@ == cv[src[p[j]]]@);
        }
        assert forall|j: int, k: int| 0 <= j < k < rv.len() implies !((#[trigger] rv[j]).size == (#[trigger] rv[k]).size
            && rv[j].hash == rv[k].hash) by {
            assert(sv[j] == kv[p[j]]);
            assert(sv[k] == kv[p[k]]);
            assert(p[j] != p[k]);
            let a = src[p[j]];
            let b = src[p[k]];
            if p[j] < p[k] {
                assert(a < b);
                assert(!(cv[a].size == cv[b].size && cv[a].hash@ == cv[b].hash@));
            } else {
                assert(b < a);
                assert(!(cv[b].size == cv[a].size && cv[b].hash@ == cv[a].hash@));
            }
        }
        assert forall|i: int|
            0 <= i < fv.len() && eligible(fv, dv, i) && members(fv, dv, fv.len() as int, fv[i]@.size, dv[i].unwrap()@).len()
                >= 2 implies exists|j: int|
            0 <= j < rv.len() && (#[trigger] rv[j]).size == fv[i]@.size && rv[j].hash == dv[i].unwrap()@ by {
            let q = choose|q: int|
                0 <= q < cv.len() && (#[trigger] cv[q]).size == fv[i]@.size && cv[q].hash@ == dv[i].unwrap()@;
            assert(cv[q]@.files.len() >= 2);
            let m = choose|m: int| 0 <= m < src.len() && #[trigger] src[m] == q;
            assert(index_hit(p, m));
            let j = choose|j: int| 0 <= j < p.len() && p[j] == m;
            assert(sv[j] == kv[m]);
            assert(rv[j].size == fv[i]@.size);
        }
        assert forall|j: int, k: int| 0 <= j < k < rv.len() implies (#[trigger] rv[j]).size >= (#[trigger] rv[k]).size by {
            assert(keyv[p[j]].key_order(keyv[p[k]]) <= 0);
            assert(sv[j] == kv[p[j]]);
            assert(sv[k] == kv[p[k]]);
        }
    }
    sorted
}

/// Finds groups of duplicate files under `path`.
///
/// `probe` is what the file system reported of `path`; `files` are the files
/// a walk of it collected (see [`walk_step`]) and `digests` the SHA-256 hex
/// digests of their contents (see [`content_digest`]; `None` for a file that
/// was not or could not be read). Files are grouped by size and digest;
/// only groups of two or more identical files are returned, largest size
/// first. Files larger than 100 MB are skipped.
///
/// # Errors
///
/// - [`CoreError::NotFound`] — the path does not exist.
/// - [`CoreError::NotADirectory`] — the path is not a directory.
pub fn find_duplicate_files(
    path: &str,
    probe: PathProbe,
    files: Vec<FileEntry>,
    digests: Vec<Option<String>>,
) -> (r: CoreResult<Vec<DuplicateGroup>>)
    requires
        digests@.len() == files@.len(),
    ensures
        r is Ok <==> probe.exists && probe.is_dir,
        r matches Err(e) ==> root_error(path@, probe, e),
        r matches Ok(v) ==> duplicate_groups_of(files@, digests@, v@.map_values(|g: DuplicateGroup| g@)),
{
    match check_root(path, probe) {
        Err(e) => Err(e),
        Ok(()) => Ok(group_duplicates(&files, &digests)),
    }
}

/// The pieces of `segs` one after another.
pub open spec fn concat_all(segs: Seq<Seq<FileEntry>>) -> Seq<FileEntry>
    decreases segs.len(),
{
    if segs.len() == 0 {
        Seq::empty()
    } else {
        concat_all(segs.drop_last()) + segs.last()
    }
}

/// `files` are what a walk collects from the directory `dir`, entered
/// `level` levels below the root: `list` gave `dir`'s entries, and for each
/// of them in turn [`walk_step`] skipped it, collected it, or descended
/// into it and collected what the walk of that directory collects.
pub open spec fn walk_output<L: Fn(String) -> Vec<FileEntry>>(
    list: L,
    max_depth: nat,
    show_hidden: bool,
    excluded: Seq<&str>,
    dir: Seq<char>,
    level: nat,
    files: Seq<FileEntry>,
) -> bool
    decreases max_depth - level, 1int,
{
    exists|d: String, children: Vec<FileEntry>, segs: Seq<Seq<FileEntry>>|
        #![trigger call_ensures(list, (d,), children), concat_all(segs)]
        {
            &&& d@ == dir
            &&& call_ensures(list, (d,), children)
            &&& segs.len() == children@.len()
            &&& files == concat_all(segs)
            &&& forall|k: int|
                0 <= k < segs.len() ==> walk_piece(
                    list,
                    max_depth,
                    show_hidden,
                    excluded,
                    level,
                    children@[k],
                    #[trigger] segs[k],
                )
        }
}

/// `seg` is what a walk collects for the entry `child` of a directory
/// entered `level` levels below the root (see [`walk_output`]).
pub open spec fn walk_piece<L: Fn(String) -> Vec<FileEntry>>(
    list: L,
    max_depth: nat,
    show_hidden: bool,
    excluded: Seq<&str>,
    level: nat,
    child: FileEntry,
    seg: Seq<FileEntry>,
) -> bool
    decreases max_depth - level, 0int,
{
    match walk_step_spec(child@.name, child@.is_dir, (max_depth - level) as usize, show_hidden, excluded) {
        WalkStep::Skip => seg.len() == 0,
        WalkStep::Collect => seg == seq![child],
        WalkStep::Descend(_) => level < max_depth && walk_output(
            list,
            max_depth,
            show_hidden,
            excluded,
            child@.path,
            level + 1,
            seg,
        ),
    }
}

/// Appending a piece appends its files.
proof fn lemma_concat_push(segs: Seq<Seq<FileEntry>>, seg: Seq<FileEntry>)
    ensures
        concat_all(segs.push(seg)) == concat_all(segs) + seg,
{
    assert(segs.push(seg).drop_last() =~= segs);
}

/// Walks the directory `dir`, entered `level` levels below the root, and
/// appends the files the walk collects there and below.
fn collect_walk<L: Fn(String) -> Vec<FileEntry>>(
    list: &L,
    dir: String,
    depth_remaining: usize,
    show_hidden: bool,
    excluded: &[&str],
    out: &mut Vec<FileEntry>,
    Ghost(max_depth): Ghost<nat>,
    Ghost(level): Ghost<nat>,
)
    requires
        forall|p: String| call_requires(*list, (p,)),
        level + depth_remaining == max_depth,
    ensures
        old(out)@.len() <= final(out)@.len(),
        final(out)@.subrange(0, old(out)@.len() as int) == old(out)@,
        walk_output(
            *list,
            max_depth,
            show_hidden,
            excluded@,
            dir@,
            level,
            final(out)@.subrange(old(out)@.len() as int, final(out)@.len() as int),
        ),
    decreases depth_remaining,
{
    let ghost start = out@;
    let ghost d = dir;
    let children = list(dir);
    let ghost mut segs: Seq<Seq<FileEntry>> = Seq::empty();
    let mut i: usize = 0;
    while i < children.len()
        invariant
            i <= children@.len(),
            forall|p: String| call_requires(*list, (p,)),
            call_ensures(*list, (d,), children),
            level + depth_remaining == max_depth,
            segs.len() == i,
            out@ == start + concat_all(segs),
            forall|k: int|
                0 <= k < i ==> walk_piece(
                    *list,
                    max_depth,
                    show_hidden,
                    excluded@,
                    level,
                    children@[k],
                    #[trigger] segs[k],
                ),
        decreases children@.len() - i,
    {
        let c = &children[i];
        let ghost seg: Seq<FileEntry>;
        match walk_step(c.name(), c.is_dir(), depth_remaining, show_hidden, excluded) {
            WalkStep::Skip => {
                proof {
                    seg = Seq::empty();
                    assert(walk_piece(*list, max_depth, show_hidden, excluded@, level, children@[i as int], seg));
                }
            },
            WalkStep::Descend(dd) => {
                let sub = to_owned_string(c.path());
                let ghost before = out@;
                collect_walk(list, sub, dd, show_hidden, excluded, out, Ghost(max_depth), Ghost(level + 1));
                proof {
                    seg = out@.subrange(before.len() as int, out@.len() as int);
                    assert(out@ =~= before + seg);
                    assert(walk_output(*list, max_depth, show_hidden, excluded@, sub@, level + 1, seg));
                    assert(walk_piece(*list, max_depth, show_hidden, excluded@, level, children@[i as int], seg));
                }
            },
            WalkStep::Collect => {
                let f = c.duplicate();
                out.push(f);
                proof {
                    seg = seq![f];
                    assert(walk_piece(*list, max_depth, show_hidden, excluded@, level, children@[i as int], seg));
                }
            },
        }
        proof {
            lemma_concat_push(segs, seg);
            segs = segs.push(seg);
            assert(walk_piece(*list, max_depth, show_hidden, excluded@, level, children@[i as int], segs[i as int]));
            assert(out@ =~= start + concat_all(segs));
        }
        i = i + 1;
    }
    proof {
        assert(out@.subrange(0, start.len() as int) =~= start);
        assert(out@.subrange(start.len() as int, out@.len() as int) =~= concat_all(segs));
    }
}

/// Finds groups of duplicate files under `path`, skipping directories whose
/// name is in `excluded`.
///
/// `probe` is what the file system reported of `path`. The walk descends at
/// most `max_depth` levels, skips hidden names unless `show_hidden`, and
/// asks `list` for the entries of each directory it enters (see
/// [`walk_step`]); `digest` gives the SHA-256 hex digest of a file's
/// content (see [`content_digest`]; `None` when it cannot be read) and is
/// asked only for the files that may have a duplicate (see
/// [`hash_candidates`]). The files are then grouped as
/// [`find_duplicate_files`] does.
///
/// # Errors
///
/// - [`CoreError::NotFound`] — the path does not exist.
/// - [`CoreError::NotADirectory`] — the path is not a directory.
pub fn find_duplicate_files_with_exclusions<L: Fn(String) -> Vec<FileEntry>, D: Fn(String) -> Option<String>>(
    path: &str,
    probe: PathProbe,
    max_depth: usize,
    show_hidden: bool,
    excluded: &[&str],
    list: L,
    digest: D,
) -> (r: CoreResult<Vec<DuplicateGroup>>)
    requires
        forall|p: String| call_requires(list, (p,)),
        forall|p: String| call_requires(digest, (p,)),
    ensures
        r is Ok <==> probe.exists && probe.is_dir,
        r matches Err(e) ==> root_error(path@, probe, e),
        r matches Ok(v) ==> exists|files: Seq<FileEntry>, digests: Seq<Option<String>>|
            #![trigger walk_output(list, max_depth as nat, show_hidden, excluded@, path@, 0, files), digests.len()]
            {
                &&& digests.len() == files.len()
                &&& walk_output(list, max_depth as nat, show_hidden, excluded@, path@, 0, files)
                &&& forall|k: int|
                    0 <= k < files.len() ==> if is_hash_candidate(files, k) {
                        exists|p: String| p@ == files[k]@.path && call_ensures(digest, (p,), #[trigger] digests[k])
                    } else {
                        digests[k] is None
                    }
                &&& duplicate_groups_of(files, digests, v@.map_values(|g: DuplicateGroup| g@))
            },
{
    if let Err(e) = check_root(path, probe) {
        return Err(e);
    }
    let mut files: Vec<FileEntry> = Vec::new();
    let root = to_owned_string(path);
    collect_walk(&list, root, max_depth, show_hidden, excluded, &mut files, Ghost(max_depth as nat), Ghost(0));
    proof {
        assert(files@.subrange(0, files@.len() as int) =~= files@);
    }
    let marks = hash_candidates(&files);
    let mut digests: Vec<Option<String>> = Vec::new();
    let mut i: usize = 0;
    while i < files.len()
        invariant
            i <= files@.len(),
            marks@.len() == files@.len(),
            digests@.len() == i,
            forall|p: String| call_requires(digest, (p,)),
            walk_output(list, max_depth as nat, show_hidden, excluded@, path@, 0, files@),
            forall|k: int| 0 <= k < files@.len() ==> marks@[k] == is_hash_candidate(files@, k),
            forall|k: int|
                0 <= k < i ==> if is_hash_candidate(files@, k) {
                    exists|p: String| p@ == files@[k]@.path && call_ensures(digest, (p,), #[trigger] digests@[k])
                } else {
                    digests@[k] is None
                },
        decreases files@.len() - i,
    {
        if marks[i] {
            let p = to_owned_string(files[i].path());
            let d = digest(p);
            digests.push(d);
        } else {
            digests.push(None);
        }
        i = i + 1;
    }
    let groups = group_duplicates(&files, &digests);
    Ok(groups)
}

/// File `i` may have a duplicate: it is no larger than
/// [`MAX_HASH_FILE_SIZE`] and another file has its size.
pub open spec fn is_hash_candidate(files: Seq<FileEntry>, i: int) -> bool {
    &&& files[i]@.size <= MAX_HASH_FILE_SIZE
    &&& exists|k: int| 0 <= k < files.len() && k != i && #[trigger] files[k]@.size == files[i]@.size
}

/// Marks the files whose content duplicate detection must read: those no
/// larger than [`MAX_HASH_FILE_SIZE`] that share their size with another file.
pub fn hash_candidates(files: &[FileEntry]) -> (r: Vec<bool>)
    ensures
        r@.len() == files@.len(),
        forall|i: int| 0 <= i < files@.len() ==> r@[i] == is_hash_candidate(files@, i),
{
    let n = files.len();
    let ghost fv = files@;
    let mut idx: Vec<usize> = Vec::new();
    let mut keys: Vec<DescKey> = Vec::new();
    for i in 0..n
        invariant
            n == files@.len(),
            idx@.len() == i,
            keys@.len() == i,
            forall|k: int| 0 <= k < i ==> #[trigger] idx@[k] == k,
            forall|k: int| 0 <= k < i ==> (#[trigger] keys@[k]).0 == files@[k]@.size as int,
    {
        idx.push(i);
        keys.push(DescKey(files[i].size() as i128));
    }
    let ghost iv = idx@;
    let ghost kv = keys@;
    let sorted = stable_sort(idx, keys);
    let ghost sv = sorted@;
    let ghost p = choose|p: Seq<int>| is_perm_by(sv, iv, p) && stably_ordered(kv, p);
    proof {
        assert(is_perm_by(sv, iv, p) && stably_ordered(kv, p));
        assert forall|k: int| 0 <= k < n implies #[trigger] sv[k] == p[k] && 0 <= p[k] < n by {
            assert(sv[k] == iv[p[k]]);
        }
        // Sizes never increase along `sorted`.
        assert forall|a: int, b: int| 0 <= a <= b < n implies fv[#[trigger] sv[a] as int]@.size >= fv[#[trigger] sv[b] as int]@.size by {
            if a < b {
                assert(kv[p[a]].key_order(kv[p[b]]) <= 0);
            }
        }
    }
    let mut r: Vec<bool> = Vec::new();
    for i in 0..n
        invariant
            r@.len() == i,
            n == files@.len(),
    {
        r.push(false);
    }
    for k in 0..n
        invariant
            n == files@.len(),
            fv == files@,
            r@.len() == n,
            sorted@ == sv,
            sv.len() == n,
            is_perm_by(sv, iv, p),
            forall|m: int| 0 <= m < n ==> #[trigger] sv[m] == p[m] && 0 <= p[m] < n,
            forall|a: int, b: int| 0 <= a <= b < n ==> fv[#[trigger] sv[a] as int]@.size >= fv[#[trigger] sv[b] as int]@.size,
            forall|m: int| 0 <= m < k ==> r@[#[trigger] sv[m] as int] == is_hash_candidate(fv, sv[m] as int),
    {
        let i = sorted[k];
        let s = files[i].size();
        let before = k > 0 && files[sorted[k - 1]].size() == s;
        let after = k + 1 < n && files[sorted[k + 1]].size() == s;
        let ghost old_r = r@;
        proof {
            let ii = i as int;
            if is_hash_candidate(fv, ii) {
                if s <= MAX_HASH_FILE_SIZE {
                    let other = choose|o: int| 0 <= o < fv.len() && o != ii && #[trigger] fv[o]@.size == fv[ii]@.size;
                    assert(index_hit(p, other));
                    let b = choose|b: int| 0 <= b < p.len() && p[b] == other;
                    assert(sv[b] == other);
                    assert(b != k);
                    if b > k {
                        assert(fv[sv[k as int] as int]@.size >= fv[sv[k + 1] as int]@.size);
                        assert(fv[sv[k + 1] as int]@.size >= fv[sv[b] as int]@.size);
                        assert(after);
                    } else {
                        assert(fv[sv[b] as int]@.size >= fv[sv[k - 1] as int]@.size);
                        assert(fv[sv[k - 1] as int]@.size >= fv[sv[k as int] as int]@.size);
                        assert(before);
                    }
                }
            }
            if before {
                assert(p[k - 1] != p[k as int]);
                assert(fv[sv[k - 1] as int]@.size == fv[ii]@.size);
            }
            if after {
                assert(p[k + 1] != p[k as int]);
                assert(fv[sv[k + 1] as int]@.size == fv[ii]@.size);
            }
        }
        r.set(i, s <= MAX_HASH_FILE_SIZE && (before || after));
        proof {
            assert forall|m: int| 0 <= m < k + 1 implies r@[#[trigger] sv[m] as int] == is_hash_candidate(fv, sv[m] as int) by {
                if m < k {
                    assert(p[m] != p[k as int]);
                    assert(r@[sv[m] as int] == old_r[sv[m] as int]);
                }
            }
        }
    }
    proof {
        assert forall|i: int| 0 <= i < fv.len() implies r@[i] == is_hash_candidate(fv, i) by {
            assert(index_hit(p, i));
            let m = choose|m: int| 0 <= m < p.len() && p[m] == i;
            assert(sv[m] == i);
        }
    }
    r
}

/// SHA-256 digest of `data`, as 64 lower-case hex digits.
pub uninterp spec fn sha256_hex(data: Seq<u8>) -> Seq<char>;

/// Hashes `data` with `sha2::Sha256` and renders the digest with `{:x}`
/// (lower-case hex). The result is named [`sha256_hex`] of the bytes.
#[verifier::external_body]
fn sha256_digest_hex(data: &[u8]) -> (r: String)
    ensures
        r@ == sha256_hex(data@),
{
    let mut hasher = sha2::Sha256::new();
    hasher.update(data);
    format!("{:x}", hasher.finalize())
}

/// The digest by which duplicate detection compares file contents.
pub fn content_digest(data: &[u8]) -> (r: String)
    ensures
        r@ == sha256_hex(data@),
{
    sha256_digest_hex(data)
}

} // verus!

//! Cached results of a duplicate-file scan.
//!
//! [`DuplicateCache`] keeps the groups of identical files found by a scan.
//! Every update consumes the cache and returns a new one; a group that falls
//! below two files is dropped, since it no longer records a duplicate.

use vstd::prelude::*;
use crate::fs::entry::FileEntry;
use crate::fs::ops::DuplicateGroup;
use crate::text::{decimal, decimal2, path_eq, std_path_eq, string_from_chars, u64_to_decimal, u64_to_decimal2};

verus! {

/// Abstract content of a [`CachedFileInfo`].
pub struct FileInfoView {
    pub path: Seq<char>,
    pub name: Seq<char>,
    pub size: u64,
}

/// Cached information about a single file in a duplicate group.
#[derive(Debug, Clone, PartialEq, Eq)]
pub struct CachedFileInfo {
    pub path: String,
    pub name: String,
    pub size: u64,
}

impl View for CachedFileInfo {
    type V = FileInfoView;

    open spec fn view(&self) -> FileInfoView {
        FileInfoView { path: self.path@, name: self.name@, size: self.size }
    }
}

impl CachedFileInfo {
    /// A copy of this record.
    pub fn duplicate(&self) -> (r: Self)
        ensures
            r@ == self@,
    {
        CachedFileInfo { path: self.path.clone(), name: self.name.clone(), size: self.size }
    }
}

/// Abstract content of a [`CachedDuplicateGroup`].
pub struct GroupView {
    pub size: u64,
    pub hash: Seq<char>,
    pub files: Seq<FileInfoView>,
}

/// A group of files with identical content, stored in the cache.
#[derive(Debug, Clone, PartialEq, Eq)]
pub struct CachedDuplicateGroup {
    pub size: u64,
    pub hash: String,
    pub files: Vec<CachedFileInfo>,
}

impl View for CachedDuplicateGroup {
    type V = GroupView;

    open spec fn view(&self) -> GroupView {
        GroupView { size: self.size, hash: self.hash@, files: self.files@.map_values(|f: CachedFileInfo| f@) }
    }
}

/// The views of a list of groups.
pub open spec fn groups_view(gs: Seq<CachedDuplicateGroup>) -> Seq<GroupView> {
    gs.map_values(|g: CachedDuplicateGroup| g@)
}

/// The files of `files` whose mark is set, in order (`keep` has a mark per position).
pub open spec fn kept_files(files: Seq<FileInfoView>, keep: Seq<bool>) -> Seq<FileInfoView>
    decreases files.len(),
{
    if files.len() == 0 {
        Seq::empty()
    } else {
        let r = kept_files(files.drop_last(), keep);
        if keep[files.len() - 1] {
            r.push(files.last())
        } else {
            r
        }
    }
}

/// The groups left when each group keeps its marked files (`marks[g][f]` for
/// file `f` of group `g`) and groups with fewer than two files are dropped.
pub open spec fn pruned_groups(groups: Seq<GroupView>, marks: Seq<Seq<bool>>) -> Seq<GroupView>
    decreases groups.len(),
{
    if groups.len() == 0 {
        Seq::empty()
    } else {
        let r = pruned_groups(groups.drop_last(), marks);
        let g = groups.last();
        let fs = kept_files(g.files, marks[groups.len() - 1]);
        if fs.len() >= 2 {
            r.push(GroupView { size: g.size, hash: g.hash, files: fs })
        } else {
            r
        }
    }
}

/// Marks of the files whose path is not `path` (by `Path` equality).
pub open spec fn marks_other_than(groups: Seq<GroupView>, path: Seq<char>) -> Seq<Seq<bool>> {
    groups.map_values(|g: GroupView| g.files.map_values(|f: FileInfoView| !std_path_eq(f.path, path)))
}

/// Number of files over all groups.
pub open spec fn file_count(groups: Seq<GroupView>) -> nat
    decreases groups.len(),
{
    if groups.len() == 0 {
        0
    } else {
        file_count(groups.drop_last()) + groups.last().files.len()
    }
}

/// Bytes a group wastes: its size times the copies beyond the first.
pub open spec fn group_waste(g: GroupView) -> nat {
    if g.files.len() == 0 {
        0
    } else {
        (g.size * (g.files.len() - 1)) as nat
    }
}

/// Bytes wasted over all groups.
pub open spec fn total_waste(groups: Seq<GroupView>) -> nat
    decreases groups.len(),
{
    if groups.len() == 0 {
        0
    } else {
        total_waste(groups.drop_last()) + group_waste(groups.last())
    }
}

/// The text of a scan time given in seconds since the Unix epoch:
/// `epoch+{days}d {hh}:{mm}:{ss} UTC`.
pub open spec fn scan_time_text(secs: nat) -> Seq<char> {
    let days = secs / 86400;
    let rem = secs % 86400;
    "epoch+"@ + decimal(days) + "d "@ + decimal2(rem / 3600) + ":"@ + decimal2((rem % 3600) / 60) + ":"@
        + decimal2(rem % 60) + " UTC"@
}

/// Persistent cache of duplicate file scan results.
#[derive(Debug, Clone)]
pub struct DuplicateCache {
    pub groups: Vec<CachedDuplicateGroup>,
    pub scanned_at: Option<String>,
    pub scan_root: Option<String>,
}

impl Default for DuplicateCache {
    fn default() -> (c: Self)
        ensures
            c.groups@.len() == 0,
            c.scanned_at is None,
            c.scan_root is None,
    {
        DuplicateCache { groups: Vec::new(), scanned_at: None, scan_root: None }
    }
}

proof fn lemma_kept_step(files: Seq<FileInfoView>, keep: Seq<bool>, i: int)
    requires
        0 <= i < files.len(),
    ensures
        kept_files(files.take(i + 1), keep) == if keep[i] {
            kept_files(files.take(i), keep).push(files[i])
        } else {
            kept_files(files.take(i), keep)
        },
{
    assert(files.take(i + 1).drop_last() =~= files.take(i));
}

proof fn lemma_pruned_step(groups: Seq<GroupView>, marks: Seq<Seq<bool>>, i: int)
    requires
        0 <= i < groups.len(),
    ensures
        pruned_groups(groups.take(i + 1), marks) == {
            let fs = kept_files(groups[i].files, marks[i]);
            if fs.len() >= 2 {
                pruned_groups(groups.take(i), marks).push(GroupView { size: groups[i].size, hash: groups[i].hash, files: fs })
            } else {
                pruned_groups(groups.take(i), marks)
            }
        },
{
    assert(groups.take(i + 1).drop_last() =~= groups.take(i));
}

/// Keeps the marked files of each group; groups left with fewer than two
/// files are dropped.
fn retain_marked(groups: &Vec<CachedDuplicateGroup>, marks: &Vec<Vec<bool>>) -> (r: Vec<CachedDuplicateGroup>)
    requires
        marks@.len() == groups@.len(),
        forall|g: int| 0 <= g < groups@.len() ==> (#[trigger] marks@[g])@.len() == groups@[g].files@.len(),
    ensures
        groups_view(r@) == pruned_groups(groups_view(groups@), marks@.map_values(|m: Vec<bool>| m@)),
{
    let ghost gv = groups_view(groups@);
    let ghost mv = marks@.map_values(|m: Vec<bool>| m@);
    let mut out: Vec<CachedDuplicateGroup> = Vec::new();
    for gi in 0..groups.len()
        invariant
            gv == groups_view(groups@),
            mv == marks@.map_values(|m: Vec<bool>| m@),
            marks@.len() == groups@.len(),
            forall|g: int| 0 <= g < groups@.len() ==> (#[trigger] marks@[g])@.len() == groups@[g].files@.len(),
            groups_view(out@) == pruned_groups(gv.take(gi as int), mv),
    {
        let group = &groups[gi];
        let mark = &marks[gi];
        let ghost fv = group@.files;
        let mut files: Vec<CachedFileInfo> = Vec::new();
        for fi in 0..group.files.len()
            invariant
                group.files@.len() == mark@.len(),
                fv == group@.files,
                files@.map_values(|f: CachedFileInfo| f@) == kept_files(fv.take(fi as int), mark@),
        {
            proof {
                lemma_kept_step(fv, mark@, fi as int);
            }
            if mark[fi] {
                let ghost before = files@;
                files.push(group.files[fi].duplicate());
                proof {
                    assert(files@.map_values(|f: CachedFileInfo| f@) =~= before.map_values(
                        |f: CachedFileInfo| f@,
                    ).push(fv[fi as int]));
                }
            }
        }
        proof {
            assert(fv.take(fv.len() as int) =~= fv);
            assert(mv[gi as int] == mark@);
            assert(gv[gi as int] == group@);
            lemma_pruned_step(gv, mv, gi as int);
        }
        if files.len() >= 2 {
            let ghost before = out@;
            let kept = CachedDuplicateGroup { size: group.size, hash: group.hash.clone(), files };
            out.push(kept);
            proof {
                assert(groups_view(out@) =~= groups_view(before).push(kept@));
            }
        }
    }
    proof {
        assert(gv.take(gv.len() as int) =~= gv);
    }
    out
}

/// The current time in whole seconds since the Unix epoch, read from the
/// system clock (`SystemTime::now`); a clock set before the epoch reads as
/// `0`. The value depends on the clock, so nothing is claimed of it.
#[verifier::external_body]
fn unix_now_secs() -> u64 {
    std::time::SystemTime::now().duration_since(std::time::SystemTime::UNIX_EPOCH).unwrap_or_default().as_secs()
}

/// Renders a scan time given in seconds since the Unix epoch as
/// `epoch+{days}d {hh}:{mm}:{ss} UTC`.
pub fn format_scan_time(secs: u64) -> (r: String)
    ensures
        r@ == scan_time_text(secs as nat),
{
    let days = secs / 86400;
    let rem = secs % 86400;
    let mut out: Vec<char> = Vec::new();
    out.push('e');
    out.push('p');
    out.push('o');
    out.push('c');
    out.push('h');
    out.push('+');
    let mut d = u64_to_decimal(days);
    out.append(&mut d);
    out.push('d');
    out.push(' ');
    let mut h = u64_to_decimal2(rem / 3600);
    out.append(&mut h);
    out.push(':');
    let mut m = u64_to_decimal2((rem % 3600) / 60);
    out.append(&mut m);
    out.push(':');
    let mut s = u64_to_decimal2(rem % 60);
    out.append(&mut s);
    out.push(' ');
    out.push('U');
    out.push('T');
    out.push('C');
    proof {
        reveal_strlit("epoch+");
        reveal_strlit("d ");
        reveal_strlit(":");
        reveal_strlit(" UTC");
        assert(out@ =~= scan_time_text(secs as nat));
    }
    string_from_chars(out.as_slice())
}

/// The cache record of a file entry: its path, name and size.
pub open spec fn info_of(e: FileEntry) -> FileInfoView {
    FileInfoView { path: e@.path, name: e@.name, size: e@.size }
}

/// The cache record of a scanned group.
pub open spec fn group_of(g: DuplicateGroup) -> GroupView {
    GroupView { size: g.size, hash: g.hash@, files: g.files@.map_values(|f: FileEntry| info_of(f)) }
}

impl DuplicateCache {
    /// Builds a cache from scan results, stamped with the scan time `scanned_at`.
    pub fn from_groups_at(groups: Vec<DuplicateGroup>, scanned_at: String) -> (c: Self)
        ensures
            groups_view(c.groups@) == groups@.map_values(|g: DuplicateGroup| group_of(g)),
            c.scanned_at == Some(scanned_at),
            c.scan_root is None,
    {
        let mut out: Vec<CachedDuplicateGroup> = Vec::new();
        for gi in 0..groups.len()
            invariant
                groups_view(out@) == groups@.take(gi as int).map_values(|g: DuplicateGroup| group_of(g)),
        {
            let g = &groups[gi];
            let mut files: Vec<CachedFileInfo> = Vec::new();
            for fi in 0..g.files.len()
                invariant
                    files@.map_values(|f: CachedFileInfo| f@) == g.files@.take(fi as int).map_values(
                        |f: FileEntry| info_of(f),
                    ),
            {
                let f = &g.files[fi];
                let info = CachedFileInfo {
                    path: f.path().to_owned(),
                    name: f.name().to_owned(),
                    size: f.size(),
                };
                let ghost before = files@;
                files.push(info);
                proof {
                    let lhs = files@.map_values(|f: CachedFileInfo| f@);
                    let rhs = g.files@.take(fi + 1).map_values(|f: FileEntry| info_of(f));
                    assert(before.map_values(|f: CachedFileInfo| f@).len() == fi);
                    assert(files@.len() == fi + 1);
                    assert(lhs.len() == fi + 1);
                    assert(rhs.len() == fi + 1);
                    assert(lhs[fi as int] == info@);
                    assert(rhs[fi as int] == info_of(*f));
                    assert(info@ == info_of(*f));
                    assert forall|k: int| 0 <= k < fi + 1 implies lhs[k] == rhs[k] by {
                        if k < fi {
                            assert(before.map_values(|f: CachedFileInfo| f@)[k] == g.files@.take(fi as int).map_values(
                                |f: FileEntry| info_of(f),
                            )[k]);
                        }
                    }
                    assert(lhs =~= rhs);
                }
            }
            let cg = CachedDuplicateGroup { size: g.size, hash: g.hash.clone(), files };
            let ghost before = out@;
            proof {
                assert(g.files@.take(g.files@.len() as int) =~= g.files@);
                assert(cg@ == group_of(*g));
            }
            out.push(cg);
            proof {
                let lhs = groups_view(out@);
                let rhs = groups@.take(gi + 1).map_values(|g: DuplicateGroup| group_of(g));
                assert(groups_view(before).len() == gi);
                assert(out@.len() == gi + 1);
                assert(lhs.len() == gi + 1);
                assert(rhs.len() == gi + 1);
                assert(lhs[gi as int] == cg@);
                assert(rhs[gi as int] == group_of(*g));
                assert forall|k: int| 0 <= k < gi + 1 implies lhs[k] == rhs[k] by {
                    if k < gi {
                        assert(groups_view(before)[k] == groups@.take(gi as int).map_values(
                            |g: DuplicateGroup| group_of(g),
                        )[k]);
                    }
                }
                assert(lhs =~= rhs);
            }
        }
        proof {
            assert(groups@.take(groups@.len() as int) =~= groups@);
        }
        DuplicateCache { groups: out, scanned_at: Some(scanned_at), scan_root: None }
    }

    /// Builds a cache from scan results, stamped with the current time.
    pub fn from_scan(groups: Vec<DuplicateGroup>) -> (c: Self)
        ensures
            groups_view(c.groups@) == groups@.map_values(|g: DuplicateGroup| group_of(g)),
            c.scanned_at is Some,
            exists|secs: nat| #[trigger] scan_time_text(secs) == c.scanned_at.unwrap()@,
            c.scan_root is None,
    {
        let secs = unix_now_secs();
        let stamp = format_scan_time(secs);
        Self::from_groups_at(groups, stamp)
    }

    /// Removes a file from the cache, dropping any group that falls below 2 files.
    pub fn remove_file(self, file_path: &str) -> (c: Self)
        ensures
            groups_view(c.groups@) == pruned_groups(groups_view(self.groups@), marks_other_than(groups_view(self.groups@), file_path@)),
            c.scanned_at == self.scanned_at,
            c.scan_root == self.scan_root,
    {
        let ghost gv = groups_view(self.groups@);
        let mut marks: Vec<Vec<bool>> = Vec::new();
        for gi in 0..self.groups.len()
            invariant
                gv == groups_view(self.groups@),
                marks@.len() == gi,
                forall|g: int| 0 <= g < gi ==> (#[trigger] marks@[g])@.len() == self.groups@[g].files@.len(),
                forall|g: int| 0 <= g < gi ==> (#[trigger] marks@[g])@ == marks_other_than(gv, file_path@)[g],
        {
            let files = &self.groups[gi].files;
            let mut m: Vec<bool> = Vec::new();
            for fi in 0..files.len()
                invariant
                    m@.len() == fi,
                    forall|f: int| 0 <= f < fi ==> m@[f] == !std_path_eq(files@[f].path@, file_path@),
            {
                m.push(!path_eq(files[fi].path.as_str(), file_path));
            }
            proof {
                assert(m@ =~= marks_other_than(gv, file_path@)[gi as int]);
            }
            marks.push(m);
        }
        let groups = retain_marked(&self.groups, &marks);
        proof {
            assert(marks@.map_values(|m: Vec<bool>| m@) =~= marks_other_than(gv, file_path@));
        }
        DuplicateCache { groups, scanned_at: self.scanned_at, scan_root: self.scan_root }
    }

    /// Keeps the files whose entry in `alive` is set (`alive[g][f]` for file
    /// `f` of group `g`), dropping any group that falls below 2 files.
    pub fn retain_alive(self, alive: Vec<Vec<bool>>) -> (c: Self)
        requires
            alive@.len() == self.groups@.len(),
            forall|g: int| 0 <= g < self.groups@.len() ==> (#[trigger] alive@[g])@.len() == self.groups@[g].files@.len(),
        ensures
            groups_view(c.groups@) == pruned_groups(groups_view(self.groups@), alive@.map_values(|m: Vec<bool>| m@)),
            c.scanned_at == self.scanned_at,
            c.scan_root == self.scan_root,
    {
        let groups = retain_marked(&self.groups, &alive);
        DuplicateCache { groups, scanned_at: self.scanned_at, scan_root: self.scan_root }
    }

    /// Validates the cache by removing entries for files that no longer exist.
    ///
    /// Which files exist is read from the file system; whatever it reports,
    /// the result is the cache pruned by some existence marks.
    pub fn validate(self) -> (c: Self)
        ensures
            exists|marks: Seq<Seq<bool>>|
                marks.len() == self.groups@.len() && groups_view(c.groups@) == pruned_groups(groups_view(self.groups@), marks),
            c.scanned_at == self.scanned_at,
            c.scan_root == self.scan_root,
    {
        let mut alive: Vec<Vec<bool>> = Vec::new();
        for gi in 0..self.groups.len()
            invariant
                alive@.len() == gi,
                forall|g: int| 0 <= g < gi ==> (#[trigger] alive@[g])@.len() == self.groups@[g].files@.len(),
        {
            let files = &self.groups[gi].files;
            let mut m: Vec<bool> = Vec::new();
            for fi in 0..files.len()
                invariant
                    m@.len() == fi,
            {
                m.push(path_exists(files[fi].path.as_str()));
            }
            alive.push(m);
        }
        let ghost marks = alive@.map_values(|m: Vec<bool>| m@);
        let ghost n = self.groups@.len();
        let c = self.retain_alive(alive);
        proof {
            assert(marks.len() == n);
        }
        c
    }

    /// Returns the total number of files across all duplicate groups.
    pub fn total_files(&self) -> (n: usize)
        requires
            file_count(groups_view(self.groups@)) <= usize::MAX,
        ensures
            n == file_count(groups_view(self.groups@)),
    {
        let ghost gv = groups_view(self.groups@);
        let mut n: usize = 0;
        for gi in 0..self.groups.len()
            invariant
                gv == groups_view(self.groups@),
                file_count(gv) <= usize::MAX,
                n == file_count(gv.take(gi as int)),
        {
            proof {
                assert(gv.take(gi + 1).drop_last() =~= gv.take(gi as int));
                lemma_file_count_prefix(gv, gi + 1);
            }
            n = n + self.groups[gi].files.len();
        }
        proof {
            assert(gv.take(gv.len() as int) =~= gv);
        }
        n
    }

    /// Returns the total wasted space in bytes (each group contributes
    /// `size * (count - 1)` bytes of waste).
    pub fn total_wasted(&self) -> (n: u64)
        requires
            total_waste(groups_view(self.groups@)) <= u64::MAX,
        ensures
            n == total_waste(groups_view(self.groups@)),
    {
        let ghost gv = groups_view(self.groups@);
        let mut n: u64 = 0;
        for gi in 0..self.groups.len()
            invariant
                gv == groups_view(self.groups@),
                total_waste(gv) <= u64::MAX,
                n == total_waste(gv.take(gi as int)),
        {
            let g = &self.groups[gi];
            proof {
                assert(gv.take(gi + 1).drop_last() =~= gv.take(gi as int));
                lemma_waste_prefix(gv, gi + 1);
                assert(gv[gi as int] == g@);
            }
            let count = g.files.len() as u64;
            let extra: u64 = if count == 0 { 0 } else { count - 1 };
            proof {
                assert(group_waste(g@) == g.size * extra) by (nonlinear_arith)
                    requires
                        extra == (if g@.files.len() == 0 { 0 } else { g@.files.len() - 1 }),
                        group_waste(g@) == (if g@.files.len() == 0 { 0nat } else { (g@.size * (g@.files.len() - 1)) as nat }),
                        g@.size == g.size,
                {
                }
            }
            n = n + g.size * extra;
        }
        proof {
            assert(gv.take(gv.len() as int) =~= gv);
        }
        n
    }

    /// Returns `true` if no duplicate groups are stored.
    pub fn is_empty(&self) -> (b: bool)
        ensures
            b <==> self.groups@.len() == 0,
    {
        self.groups.len() == 0
    }
}

/// Whether a path names an existing file system object, asked of the file
/// system with `Path::exists`. The answer depends on the disk, so nothing is
/// claimed of it.
#[verifier::external_body]
fn path_exists(p: &str) -> bool {
    std::path::Path::new(p).exists()
}

proof fn lemma_file_count_prefix(gv: Seq<GroupView>, i: int)
    requires
        0 < i <= gv.len(),
    ensures
        file_count(gv.take(i - 1)) + gv[i - 1].files.len() == file_count(gv.take(i)),
        file_count(gv.take(i)) <= file_count(gv),
    decreases gv.len() - i,
{
    assert(gv.take(i).drop_last() =~= gv.take(i - 1));
    if i < gv.len() {
        lemma_file_count_prefix(gv, i + 1);
    } else {
        assert(gv.take(i) =~= gv);
    }
}

proof fn lemma_waste_prefix(gv: Seq<GroupView>, i: int)
    requires
        0 < i <= gv.len(),
    ensures
        total_waste(gv.take(i - 1)) + group_waste(gv[i - 1]) == total_waste(gv.take(i)),
        total_waste(gv.take(i)) <= total_waste(gv),
    decreases gv.len() - i,
{
    assert(gv.take(i).drop_last() =~= gv.take(i - 1));
    if i < gv.len() {
        lemma_waste_prefix(gv, i + 1);
    } else {
        assert(gv.take(i) =~= gv);
    }
}

} // verus!

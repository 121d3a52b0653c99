//! The shallow directory tree shown in the preview of a directory.
//!
//! The tree is walked depth first, directories before files and each group
//! by name, down to a depth limit and up to an entry limit. Listing a
//! directory is left to the caller: [`TreeWalk`] says which directory to
//! list next and takes its children, so every decision of the walk is made
//! here.

use vstd::prelude::*;
use crate::error::CoreError;
use crate::fs::preview::TreeEntry;
use crate::sort::{is_stable_sort_by, lemma_stable_sort_by_keys, lemma_stable_sort_map, stable_sort, SortKey};
use crate::text::{
    chars_of, chars_order, lemma_seq_order_antisym, lemma_seq_order_eq, lemma_seq_order_trans,
    nfc_composed, nfc_string, path_join, seq_order, std_path_join,
};

verus! {

/// A child of a listed directory: its name and whether it is a directory.
#[derive(Debug, Clone, PartialEq, Eq)]
pub struct TreeChild {
    pub name: String,
    pub is_dir: bool,
}

impl View for TreeChild {
    type V = (Seq<char>, bool);

    open spec fn view(&self) -> (Seq<char>, bool) {
        (self.name@, self.is_dir)
    }
}

/// The order of the tree: directories first, then by name.
pub open spec fn child_order(a: (Seq<char>, bool), b: (Seq<char>, bool)) -> int {
    if a.1 != b.1 {
        if a.1 {
            -1
        } else {
            1
        }
    } else {
        seq_order(a.0, b.0)
    }
}

/// The views of `cs`.
pub open spec fn children_view(cs: Seq<TreeChild>) -> Seq<(Seq<char>, bool)> {
    cs.map_values(|c: TreeChild| c@)
}

/// Sort key of a child: its rank (directories first) and its name.
pub struct ChildKey {
    pub rank: u8,
    pub name: Vec<char>,
}

impl SortKey for ChildKey {
    open spec fn key_order(self, other: Self) -> int {
        if self.rank != other.rank {
            if self.rank < other.rank {
                -1
            } else {
                1
            }
        } else {
            seq_order(self.name@, other.name@)
        }
    }

    proof fn lemma_key_order_antisym(a: Self, b: Self) {
        lemma_seq_order_antisym(a.name@, b.name@);
        lemma_seq_order_eq(a.name@, b.name@);
    }

    proof fn lemma_key_order_trans(a: Self, b: Self, c: Self) {
        lemma_seq_order_antisym(a.name@, b.name@);
        lemma_seq_order_antisym(b.name@, c.name@);
        if a.rank == b.rank && b.rank == c.rank {
            lemma_seq_order_trans(a.name@, b.name@, c.name@);
        }
    }

    fn compare_keys(&self, other: &Self) -> (r: i8) {
        if self.rank != other.rank {
            if self.rank < other.rank {
                -1
            } else {
                1
            }
        } else {
            chars_order(self.name.as_slice(), other.name.as_slice())
        }
    }
}

/// Sorts the children of a directory: directories first, then by name;
/// children that tie keep their order.
pub fn sort_tree_children(children: Vec<TreeChild>) -> (r: Vec<TreeChild>)
    ensures
        is_stable_sort_by(
            children_view(r@),
            children_view(children@),
            |a: (Seq<char>, bool), b: (Seq<char>, bool)| child_order(a, b),
        ),
{
    let mut keys: Vec<ChildKey> = Vec::new();
    let mut i: usize = 0;
    while i < children.len()
        invariant
            i <= children.len(),
            keys.len() == i,
            forall|k: int|
                0 <= k < i ==> (#[trigger] keys@[k]).name@ == children@[k].name@ && (keys@[k].rank
                    == 0) == children@[k].is_dir && keys@[k].rank <= 1,
        decreases children.len() - i,
    {
        let rank: u8 = if children[i].is_dir {
            0
        } else {
            1
        };
        keys.push(ChildKey { rank, name: chars_of(children[i].name.as_str()) });
        i = i + 1;
    }
    let ghost inp = children@;
    let ghost ks = keys@;
    let r = stable_sort(children, keys);
    proof {
        let ord = |a: TreeChild, b: TreeChild| child_order(a@, b@);
        assert forall|i: int, j: int|
            0 <= i < inp.len() && 0 <= j < inp.len() implies (#[trigger] ks[i]).key_order(
            #[trigger] ks[j],
        ) == ord(inp[i], inp[j]) by {
            assert(ks[i].rank <= 1 && ks[j].rank <= 1);
        }
        lemma_stable_sort_by_keys(r@, inp, ks, ord);
        let vord = |a: (Seq<char>, bool), b: (Seq<char>, bool)| child_order(a, b);
        let f = |c: TreeChild| c@;
        assert forall|a: TreeChild, b: TreeChild| #[trigger] ord(a, b) == vord(f(a), f(b)) by {}
        lemma_stable_sort_map(r@, inp, ord, f, vord);
    }
    r
}

/// A directory being walked: its path, its depth, its sorted children and
/// the position of the next child.
pub struct FrameView {
    pub dir: Seq<char>,
    pub depth: nat,
    pub children: Seq<(Seq<char>, bool)>,
    pub next: nat,
}

/// The state of a walk: its limits, the entries found so far, the
/// directories being walked (innermost last) and the directory to list
/// next, with its depth (`None` once the walk is over).
pub struct WalkView {
    pub max_depth: nat,
    pub max_entries: nat,
    pub entries: Seq<(Seq<char>, bool, nat)>,
    pub frames: Seq<FrameView>,
    pub pending: Option<(Seq<char>, nat)>,
}

/// The children of `f` not yet visited.
pub open spec fn children_left(f: FrameView) -> nat {
    if f.next < f.children.len() {
        (f.children.len() - f.next) as nat
    } else {
        0
    }
}

/// The children not yet visited over all directories being walked.
pub open spec fn frames_left(fs: Seq<FrameView>) -> nat
    decreases fs.len(),
{
    if fs.len() == 0 {
        0
    } else {
        frames_left(fs.drop_last()) + children_left(fs.last())
    }
}

/// Goes on with a walk until a directory has to be listed or the walk is
/// over. The walk is over once the entry limit is reached or every
/// directory is done. Each child visited becomes an entry (its name in NFC
/// form, at the depth of its directory); a child directory above the
/// depth limit is listed next, while there is room for more entries.
pub open spec fn settle(v: WalkView) -> WalkView
    decreases frames_left(v.frames), v.frames.len(),
{
    if v.frames.len() == 0 || v.entries.len() >= v.max_entries {
        WalkView { pending: None, ..v }
    } else {
        let top = v.frames.last();
        if top.next >= top.children.len() {
            settle(WalkView { frames: v.frames.drop_last(), ..v })
        } else {
            let child = top.children[top.next as int];
            let entries = v.entries.push((nfc_composed(child.0), child.1, top.depth));
            let frames = v.frames.update(
                v.frames.len() - 1,
                FrameView { next: top.next + 1, ..top },
            );
            proof {
                assert(frames.drop_last() =~= v.frames.drop_last());
            }
            if child.1 && top.depth + 1 <= v.max_depth && entries.len() < v.max_entries {
                WalkView {
                    entries,
                    frames,
                    pending: Some((std_path_join(top.dir, child.0), top.depth + 1)),
                    ..v
                }
            } else {
                settle(WalkView { entries, frames, pending: None, ..v })
            }
        }
    }
}

/// The walk after the directory it asked for was listed with `children`,
/// in tree order.
pub open spec fn after_listing(v: WalkView, children: Seq<(Seq<char>, bool)>) -> WalkView {
    let dir = v.pending->0;
    settle(
        WalkView {
            frames: v.frames.push(FrameView { dir: dir.0, depth: dir.1, children, next: 0 }),
            pending: None,
            ..v
        },
    )
}

/// Going on with a walk keeps its limits and the entries found, and it
/// asks for another directory only after finding an entry.
pub proof fn lemma_settle_progress(v: WalkView)
    ensures
        settle(v).max_depth == v.max_depth,
        settle(v).max_entries == v.max_entries,
        settle(v).entries.len() >= v.entries.len(),
        settle(v).pending is Some ==> settle(v).entries.len() > v.entries.len(),
    decreases frames_left(v.frames), v.frames.len(),
{
    if v.frames.len() == 0 || v.entries.len() >= v.max_entries {
    } else {
        let top = v.frames.last();
        if top.next >= top.children.len() {
            lemma_settle_progress(WalkView { frames: v.frames.drop_last(), ..v });
        } else {
            let child = top.children[top.next as int];
            let entries = v.entries.push((nfc_composed(child.0), child.1, top.depth));
            let frames = v.frames.update(v.frames.len() - 1, FrameView { next: top.next + 1, ..top });
            assert(frames.drop_last() =~= v.frames.drop_last());
            if child.1 && top.depth + 1 <= v.max_depth && entries.len() < v.max_entries {
            } else {
                lemma_settle_progress(WalkView { entries, frames, pending: None, ..v });
            }
        }
    }
}

/// The walk from `root`: nothing found, nothing walked, and the root to
/// list first unless no entry is wanted.
pub open spec fn walk_start(root: Seq<char>, max_depth: nat, max_entries: nat) -> WalkView {
    WalkView {
        max_depth,
        max_entries,
        entries: Seq::empty(),
        frames: Seq::empty(),
        pending: if max_entries > 0 {
            Some((root, 0))
        } else {
            None
        },
    }
}

/// A walk keeps within its limits: no more entries than allowed, and none
/// deeper than the depth limit.
pub open spec fn within_limits(v: WalkView) -> bool {
    &&& v.entries.len() <= v.max_entries
    &&& forall|i: int| 0 <= i < v.entries.len() ==> (#[trigger] v.entries[i]).2 <= v.max_depth
}

/// A directory being walked.
struct TreeFrame {
    dir: String,
    depth: usize,
    children: Vec<TreeChild>,
    next: usize,
}

spec fn frame_view(f: TreeFrame) -> FrameView {
    FrameView {
        dir: f.dir@,
        depth: f.depth as nat,
        children: children_view(f.children@),
        next: f.next as nat,
    }
}

/// The view of a tree entry: its name, whether it is a directory, and its
/// depth.
pub open spec fn tree_entry_view(e: TreeEntry) -> (Seq<char>, bool, nat) {
    (e.name@, e.is_dir, e.depth as nat)
}

/// The views of `es`.
pub open spec fn tree_entries_view(es: Seq<TreeEntry>) -> Seq<(Seq<char>, bool, nat)> {
    es.map_values(|e: TreeEntry| tree_entry_view(e))
}

/// A depth-first walk of a directory tree that asks its caller to list
/// each directory it enters (see [`settle`]).
pub struct TreeWalk {
    max_depth: usize,
    max_entries: usize,
    entries: Vec<TreeEntry>,
    frames: Vec<TreeFrame>,
    pending: Option<(String, usize)>,
}

impl View for TreeWalk {
    type V = WalkView;

    closed spec fn view(&self) -> WalkView {
        WalkView {
            max_depth: self.max_depth as nat,
            max_entries: self.max_entries as nat,
            entries: tree_entries_view(self.entries@),
            frames: self.frames@.map_values(|f: TreeFrame| frame_view(f)),
            pending: match self.pending {
                Some((d, k)) => Some((d@, k as nat)),
                None => None,
            },
        }
    }
}

impl TreeWalk {
    /// Positions lie within their directories, depths within the limit,
    /// and the entries within their limit.
    pub closed spec fn wf(&self) -> bool {
        &&& forall|i: int|
            0 <= i < self.frames.len() ==> {
                &&& (#[trigger] self.frames@[i]).next <= self.frames@[i].children.len()
                &&& self.frames@[i].depth <= self.max_depth
            }
        &&& self.entries.len() <= self.max_entries
        &&& forall|i: int| 0 <= i < self.entries.len() ==> (#[trigger] self.entries@[i]).depth <= self.max_depth
        &&& self.pending matches Some((_, d)) ==> d <= self.max_depth
    }

    /// Starts a walk of the tree under `root`, `max_depth` levels deep
    /// (0: the root's children only) and at most `max_entries` entries long.
    pub fn new(root: String, max_depth: usize, max_entries: usize) -> (w: Self)
        ensures
            w.wf(),
            within_limits(w@),
            w@ == walk_start(root@, max_depth as nat, max_entries as nat),
    {
        let pending = if max_entries > 0 {
            Some((root, 0usize))
        } else {
            None
        };
        let w = TreeWalk { max_depth, max_entries, entries: Vec::new(), frames: Vec::new(), pending };
        proof {
            assert(w@.entries =~= Seq::empty());
            assert(w@.frames =~= Seq::empty());
        }
        w
    }

    /// The directory to list next (`None` once the walk is over).
    pub fn next_dir(&self) -> (r: Option<String>)
        ensures
            r is None <==> self@.pending is None,
            r matches Some(d) ==> self@.pending matches Some(p) && d@ == p.0,
    {
        match &self.pending {
            Some((d, _)) => Some(d.clone()),
            None => None,
        }
    }

    /// Takes the listing of the directory asked for and goes on until the
    /// next directory has to be listed or the walk is over.
    pub fn listed(&mut self, children: Vec<TreeChild>)
        requires
            old(self).wf(),
            old(self)@.pending is Some,
        ensures
            final(self).wf(),
            within_limits(final(self)@),
            final(self)@.max_depth == old(self)@.max_depth,
            final(self)@.max_entries == old(self)@.max_entries,
            final(self)@.entries.len() >= old(self)@.entries.len(),
            final(self)@.pending is Some ==> final(self)@.entries.len() > old(self)@.entries.len(),
            exists|sorted: Seq<(Seq<char>, bool)>|
                {
                    &&& is_stable_sort_by(
                        sorted,
                        children_view(children@),
                        |a: (Seq<char>, bool), b: (Seq<char>, bool)| child_order(a, b),
                    )
                    &&& final(self)@ == after_listing(old(self)@, sorted)
                },
    {
        let ghost before = self@;
        let sorted = sort_tree_children(children);
        let ghost sv = children_view(sorted@);
        let (dir, depth) = match self.pending.take() {
            Some(p) => p,
            None => {
                assert(false);
                (String::new(), 0)
            },
        };
        let ghost frames0 = self.frames@;
        self.frames.push(TreeFrame { dir, depth, children: sorted, next: 0 });
        proof {
            let pd = before.pending->0;
            assert(self@.frames =~= before.frames.push(
                FrameView { dir: pd.0, depth: pd.1, children: children_view(sorted@), next: 0 },
            ));
        }
        proof {
            let pd = before.pending->0;
            assert(self@ == WalkView {
                frames: before.frames.push(FrameView { dir: pd.0, depth: pd.1, children: sv, next: 0 }),
                pending: None,
                ..before
            });
        }
        self.settle_walk();
        assert(self@ == after_listing(before, sv));
        proof {
            let pd = before.pending->0;
            lemma_settle_progress(WalkView {
                frames: before.frames.push(FrameView { dir: pd.0, depth: pd.1, children: sv, next: 0 }),
                pending: None,
                ..before
            });
            assert forall|i: int| 0 <= i < self@.entries.len() implies (#[trigger] self@.entries[i]).2 <= self@.max_depth by {
                assert(self@.entries[i] == tree_entry_view(self.entries@[i]));
            }
        }
    }

    /// The entries found.
    pub fn entries(&self) -> (r: Vec<TreeEntry>)
        ensures
            tree_entries_view(r@) == self@.entries,
    {
        let mut out: Vec<TreeEntry> = Vec::new();
        let mut i: usize = 0;
        while i < self.entries.len()
            invariant
                i <= self.entries.len(),
                tree_entries_view(out@) == tree_entries_view(self.entries@.take(i as int)),
            decreases self.entries.len() - i,
        {
            let e = &self.entries[i];
            let ghost before = out@;
            out.push(TreeEntry { name: e.name.clone(), is_dir: e.is_dir, depth: e.depth });
            proof {
                assert(self.entries@.take(i + 1) =~= self.entries@.take(i as int).push(self.entries@[i as int]));
                assert(tree_entries_view(out@) =~= tree_entries_view(before).push(tree_entry_view(self.entries@[i as int])));
            }
            i = i + 1;
        }
        proof {
            assert(self.entries@.take(i as int) =~= self.entries@);
        }
        out
    }

    /// Goes on with the walk as [`settle`] says.
    fn settle_walk(&mut self)
        requires
            old(self).wf(),
        ensures
            final(self).wf(),
            final(self)@ == settle(old(self)@),
    {
        let ghost target = settle(self@);
        loop
            invariant_except_break
                settle(self@) == target,
            invariant
                self.wf(),
            ensures
                self@ == target,
            decreases frames_left(self@.frames), self@.frames.len(),
        {
            if self.frames.len() == 0 || self.entries.len() >= self.max_entries {
                self.pending = None;
                break;
            }
            let ghost v = self@;
            let mut top = self.frames.pop().unwrap();
            proof {
                assert(self@.frames =~= v.frames.drop_last());
                assert(frame_view(top) == v.frames.last());
            }
            if top.next >= top.children.len() {
                proof {
                    assert(frames_left(v.frames) == frames_left(v.frames.drop_last()) + children_left(v.frames.last()));
                }
                continue;
            }
            let child_name = top.children[top.next].name.clone();
            let child_is_dir = top.children[top.next].is_dir;
            let name = nfc_string(child_name.as_str());
            let ghost entries0 = self.entries@;
            self.entries.push(TreeEntry { name, is_dir: child_is_dir, depth: top.depth });
            proof {
                assert(tree_entries_view(self.entries@) =~= tree_entries_view(entries0).push(
                    (nfc_composed(child_name@), child_is_dir, top.depth as nat),
                ));
            }
            top.next = top.next + 1;
            let depth = top.depth;
            let descend = child_is_dir && depth < self.max_depth && self.entries.len() < self.max_entries;
            let sub = if descend {
                Some(path_join(top.dir.as_str(), child_name.as_str()))
            } else {
                None
            };
            let ghost frames_mid = self.frames@;
            self.frames.push(top);
            proof {
                assert(self@.frames =~= v.frames.update(
                    v.frames.len() - 1,
                    FrameView { next: v.frames.last().next + 1, ..v.frames.last() },
                ));
                assert(self@.frames.drop_last() =~= v.frames.drop_last());
                assert(frames_left(self@.frames) < frames_left(v.frames));
            }
            match sub {
                Some(p) => {
                    self.pending = Some((p, depth + 1));
                    break;
                },
                None => {
                    self.pending = None;
                },
            }
        }
    }
}

/// The walk after taking the listings `ls` (each already in tree order),
/// one after the other.
pub open spec fn run_walk(v: WalkView, ls: Seq<Seq<(Seq<char>, bool)>>) -> WalkView
    decreases ls.len(),
{
    if ls.len() == 0 {
        v
    } else {
        after_listing(run_walk(v, ls.drop_last()), ls.last())
    }
}

/// The walk from `start` took the listings `ls`: the `i`-th asked for
/// `dirs[i]`, which `list` answered with `outs[i]`, and `ls[i]` is that
/// answer in tree order.
pub open spec fn walk_fed<F: Fn(String) -> Result<Vec<TreeChild>, CoreError>>(
    start: WalkView,
    list: F,
    dirs: Seq<String>,
    outs: Seq<Vec<TreeChild>>,
    ls: Seq<Seq<(Seq<char>, bool)>>,
) -> bool {
    &&& dirs.len() == ls.len()
    &&& outs.len() == ls.len()
    &&& forall|i: int| 0 <= i < ls.len() ==> call_ensures(list, (#[trigger] dirs[i],), Ok(outs[i]))
    &&& forall|i: int|
        0 <= i < ls.len() ==> is_stable_sort_by(
            #[trigger] ls[i],
            children_view(outs[i]@),
            |a: (Seq<char>, bool), b: (Seq<char>, bool)| child_order(a, b),
        )
    &&& forall|i: int|
        0 <= i < ls.len() ==> (run_walk(start, #[trigger] ls.take(i)).pending matches Some(pd) && pd.0
            == dirs[i]@)
}

/// Reads the shallow tree under `root` (a directory when `is_dir`), at most
/// `max_depth` levels deep and `max_entries` entries long, directories
/// first and then by name; `list` lists a directory. The walk itself is
/// [`TreeWalk`]; the first listing error ends it. The entries read are
/// those of the finished walk over the listings `list` gave.
///
/// # Errors
///
/// - [`CoreError::NotADirectory`] when `root` is not a directory.
/// - the error of a directory that could not be listed.
pub fn read_directory_tree<F: Fn(String) -> Result<Vec<TreeChild>, CoreError>>(
    root: &str,
    is_dir: bool,
    max_depth: usize,
    max_entries: usize,
    list: F,
) -> (r: Result<Vec<TreeEntry>, CoreError>)
    requires
        forall|p: String| call_requires(list, (p,)),
    ensures
        !is_dir ==> (r matches Err(CoreError::NotADirectory(p)) && p@ == root@),
        is_dir && max_entries == 0 ==> (r matches Ok(v) && v@.len() == 0),
        r matches Ok(v) ==> within_limits(WalkView {
            max_depth: max_depth as nat,
            max_entries: max_entries as nat,
            entries: tree_entries_view(v@),
            frames: Seq::empty(),
            pending: None,
        }),
        r matches Ok(v) ==> exists|dirs: Seq<String>, outs: Seq<Vec<TreeChild>>, ls: Seq<Seq<(Seq<char>, bool)>>|
            {
                &&& #[trigger] walk_fed(walk_start(root@, max_depth as nat, max_entries as nat), list, dirs, outs, ls)
                &&& run_walk(walk_start(root@, max_depth as nat, max_entries as nat), ls).pending is None
                &&& tree_entries_view(v@) == run_walk(walk_start(root@, max_depth as nat, max_entries as nat), ls).entries
            },
{
    if !is_dir {
        return Err(CoreError::NotADirectory(root.to_owned()));
    }
    let ghost start = walk_start(root@, max_depth as nat, max_entries as nat);
    let mut walk = TreeWalk::new(root.to_owned(), max_depth, max_entries);
    let ghost mut dirs: Seq<String> = Seq::empty();
    let ghost mut outs: Seq<Vec<TreeChild>> = Seq::empty();
    let ghost mut ls: Seq<Seq<(Seq<char>, bool)>> = Seq::empty();
    loop
        invariant
            walk.wf(),
            within_limits(walk@),
            walk@.max_depth == max_depth,
            walk@.max_entries == max_entries,
            is_dir,
            max_entries == 0 ==> walk@.pending is None,
            forall|p: String| call_requires(list, (p,)),
            start == walk_start(root@, max_depth as nat, max_entries as nat),
            walk_fed(start, list, dirs, outs, ls),
            walk@ == run_walk(start, ls),
        ensures
            walk.wf(),
            within_limits(walk@),
            walk@.max_depth == max_depth,
            walk@.max_entries == max_entries,
            walk_fed(start, list, dirs, outs, ls),
            walk@ == run_walk(start, ls),
            walk@.pending is None,
        decreases walk@.max_entries - walk@.entries.len() + (if walk@.pending is Some { 1int } else { 0int }),
    {
        match walk.next_dir() {
            None => {
                break;
            },
            Some(dir) => {
                let ghost gd = dir;
                let ghost before = walk@;
                let children = match list(dir) {
                    Ok(c) => c,
                    Err(e) => {
                        return Err(e);
                    },
                };
                let ghost gc = children;
                walk.listed(children);
                proof {
                    let sorted = choose|sorted: Seq<(Seq<char>, bool)>|
                        {
                            &&& is_stable_sort_by(
                                sorted,
                                children_view(gc@),
                                |a: (Seq<char>, bool), b: (Seq<char>, bool)| child_order(a, b),
                            )
                            &&& walk@ == after_listing(before, sorted)
                        };
                    let ls0 = ls;
                    let dirs0 = dirs;
                    let outs0 = outs;
                    dirs = dirs.push(gd);
                    outs = outs.push(gc);
                    ls = ls.push(sorted);
                    assert(ls.drop_last() =~= ls0);
                    assert forall|i: int| 0 <= i < ls.len() implies call_ensures(list, (#[trigger] dirs[i],), Ok(outs[i])) by {
                        if i < ls0.len() {
                            assert(dirs[i] == dirs0[i]);
                            assert(outs[i] == outs0[i]);
                        }
                    }
                    assert forall|i: int|
                        0 <= i < ls.len() implies is_stable_sort_by(
                        #[trigger] ls[i],
                        children_view(outs[i]@),
                        |a: (Seq<char>, bool), b: (Seq<char>, bool)| child_order(a, b),
                    ) by {
                        if i < ls0.len() {
                            assert(ls[i] == ls0[i]);
                            assert(outs[i] == outs0[i]);
                        }
                    }
                    assert forall|i: int|
                        0 <= i < ls.len() implies (run_walk(start, #[trigger] ls.take(i)).pending matches Some(pd)
                        && pd.0 == dirs[i]@) by {
                        if i < ls0.len() {
                            assert(ls.take(i) =~= ls0.take(i));
                            assert(dirs[i] == dirs0[i]);
                        } else {
                            assert(ls.take(i) =~= ls0);
                        }
                    }
                }
            },
        }
    }
    let entries = walk.entries();
    proof {
        assert(walk_fed(walk_start(root@, max_depth as nat, max_entries as nat), list, dirs, outs, ls));
    }
    Ok(entries)
}

} // verus!

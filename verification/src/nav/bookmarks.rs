//! Bookmark management.
//!
//! Bookmarks map a human-readable label to an absolute directory path. The
//! labels are kept in sorted order, as in an ordered map.

use vstd::prelude::*;
use crate::text::{lemma_seq_order_antisym, lemma_seq_order_eq, lemma_seq_order_trans, seq_lt, seq_order, str_order};

verus! {

/// A collection of named bookmarks (label → path), ordered by label.
#[derive(Debug, Clone, Default, PartialEq)]
pub struct Bookmarks {
    entries: Vec<(String, String)>,
}

/// Labels strictly increase along the list.
pub open spec fn labels_sorted(s: Seq<(String, String)>) -> bool {
    forall|i: int, j: int| 0 <= i < j < s.len() ==> seq_lt((#[trigger] s[i]).0@, (#[trigger] s[j]).0@)
}

/// The map that a list of (label, path) pairs stands for.
pub open spec fn entries_map(s: Seq<(String, String)>) -> Map<Seq<char>, Seq<char>>
    decreases s.len(),
{
    if s.len() == 0 {
        Map::empty()
    } else {
        entries_map(s.drop_last()).insert(s.last().0@, s.last().1@)
    }
}

/// The labels of a list of pairs, in order.
pub open spec fn labels_of(s: Seq<(String, String)>) -> Seq<Seq<char>> {
    s.map_values(|e: (String, String)| e.0@)
}

/// In a sorted list, the map holds exactly the listed labels, each with its path.
proof fn lemma_entries_map(s: Seq<(String, String)>)
    requires
        labels_sorted(s),
    ensures
        forall|i: int| 0 <= i < s.len() ==> #[trigger] entries_map(s).contains_key(s[i].0@)
            && entries_map(s)[s[i].0@] == s[i].1@,
        forall|l: Seq<char>| #[trigger] entries_map(s).contains_key(l) ==> exists|i: int| 0 <= i < s.len() && s[i].0@ == l,
        entries_map(s).dom().finite(),
        entries_map(s).len() == s.len(),
    decreases s.len(),
{
    if s.len() > 0 {
        let t = s.drop_last();
        lemma_entries_map(t);
        let k = s.last().0@;
        assert forall|i: int| 0 <= i < t.len() implies t[i].0@ != k by {
            assert(seq_lt(s[i].0@, s[s.len() - 1].0@));
            lemma_seq_order_eq(s[i].0@, s[s.len() - 1].0@);
        }
        assert(!entries_map(t).contains_key(k));
        assert forall|l: Seq<char>| #[trigger] entries_map(s).contains_key(l) implies exists|i: int| 0 <= i < s.len() && s[i].0@ == l by {
            if l != k {
                assert(entries_map(t).contains_key(l));
                let i = choose|i: int| 0 <= i < t.len() && t[i].0@ == l;
                assert(s[i].0@ == l);
            } else {
                assert(s[s.len() - 1].0@ == l);
            }
        }
        assert forall|i: int| 0 <= i < s.len() implies #[trigger] entries_map(s).contains_key(s[i].0@)
            && entries_map(s)[s[i].0@] == s[i].1@ by {
            if i < s.len() - 1 {
                assert(s[i] == t[i]);
            }
        }
    }
}

impl View for Bookmarks {
    type V = Map<Seq<char>, Seq<char>>;

    closed spec fn view(&self) -> Map<Seq<char>, Seq<char>> {
        entries_map(self.entries@)
    }
}

impl Bookmarks {
    /// The labels are in strictly increasing order.
    pub closed spec fn wf(&self) -> bool {
        labels_sorted(self.entries@)
    }

    /// The labels in the order in which they are listed.
    pub closed spec fn label_list(&self) -> Seq<Seq<char>> {
        labels_of(self.entries@)
    }

    /// Facts about the listed labels of a well-formed collection.
    pub proof fn lemma_label_list(&self)
        requires
            self.wf(),
        ensures
            self.label_list().len() == self@.len(),
            forall|i: int, j: int| 0 <= i < j < self.label_list().len() ==> seq_lt(#[trigger] self.label_list()[i], #[trigger] self.label_list()[j]),
            forall|l: Seq<char>| self@.contains_key(l) <==> self.label_list().contains(l),
            self@.dom().finite(),
    {
        lemma_entries_map(self.entries@);
        let s = self.entries@;
        assert forall|l: Seq<char>| self@.contains_key(l) <==> self.label_list().contains(l) by {
            if self@.contains_key(l) {
                let i = choose|i: int| 0 <= i < s.len() && s[i].0@ == l;
                assert(self.label_list()[i] == l);
            }
            if self.label_list().contains(l) {
                let i = choose|i: int| 0 <= i < self.label_list().len() && self.label_list()[i] == l;
                assert(s[i].0@ == l);
            }
        }
    }

    /// Create an empty bookmark set.
    pub fn new() -> (b: Self)
        ensures
            b.wf(),
            b@ == Map::<Seq<char>, Seq<char>>::empty(),
    {
        Bookmarks { entries: Vec::new() }
    }

    /// Return a new `Bookmarks` with the given entry added (or updated).
    pub fn with_bookmark(self, label: String, path: String) -> (b: Self)
        requires
            self.wf(),
        ensures
            b.wf(),
            b@ == self@.insert(label@, path@),
    {
        let mut entries = self.entries;
        let ghost s = entries@;
        let mut i: usize = 0;
        while i < entries.len() && str_order(entries[i].0.as_str(), label.as_str()) < 0
            invariant
                i <= entries.len(),
                entries@ == s,
                forall|k: int| 0 <= k < i ==> seq_lt((#[trigger] s[k]).0@, label@),
            decreases entries.len() - i,
        {
            i = i + 1;
        }
        proof {
            lemma_entries_map(s);
        }
        if i < entries.len() && str_order(entries[i].0.as_str(), label.as_str()) == 0 {
            proof {
                lemma_seq_order_eq(s[i as int].0@, label@);
            }
            entries.set(i, (label, path));
            proof {
                let t = entries@;
                assert(labels_sorted(t)) by {
                    assert forall|a: int, c: int| 0 <= a < c < t.len() implies seq_lt((#[trigger] t[a]).0@, (#[trigger] t[c]).0@) by {
                        assert(seq_lt(s[a].0@, s[c].0@));
                    }
                }
                lemma_entries_map(t);
                assert(entries_map(t) =~= entries_map(s).insert(label@, path@)) by {
                    assert forall|l: Seq<char>| #[trigger] entries_map(t).contains_key(l) <==> entries_map(s).insert(label@, path@).contains_key(l) by {
                        if entries_map(t).contains_key(l) {
                            let k = choose|k: int| 0 <= k < t.len() && t[k].0@ == l;
                            if k != i {
                                assert(t[k] == s[k]);
                            }
                        }
                        if entries_map(s).contains_key(l) {
                            let k = choose|k: int| 0 <= k < s.len() && s[k].0@ == l;
                            if k != i {
                                assert(t[k] == s[k]);
                                assert(entries_map(t).contains_key(t[k].0@));
                            } else {
                                assert(entries_map(t).contains_key(t[k].0@));
                            }
                        }
                        if l == label@ {
                            assert(t[i as int].0@ == label@);
                            assert(entries_map(t).contains_key(t[i as int].0@));
                        }
                    }
                    assert forall|l: Seq<char>| #[trigger] entries_map(t).contains_key(l) implies entries_map(t)[l] == entries_map(s).insert(label@, path@)[l] by {
                        let k = choose|k: int| 0 <= k < t.len() && t[k].0@ == l;
                        if k != i {
                            assert(t[k] == s[k]);
                        }
                    }
                }
            }
        } else {
            proof {
                if i < s.len() {
                    lemma_seq_order_antisym(s[i as int].0@, label@);
                    lemma_seq_order_eq(s[i as int].0@, label@);
                }
            }
            entries.insert(i, (label, path));
            proof {
                let t = entries@;
                assert(labels_sorted(t)) by {
                    assert forall|a: int, c: int| 0 <= a < c < t.len() implies seq_lt((#[trigger] t[a]).0@, (#[trigger] t[c]).0@) by {
                        if c < i {
                            assert(t[a] == s[a] && t[c] == s[c]);
                        } else if c == i {
                            assert(t[a] == s[a]);
                        } else if a == i {
                            assert(t[c] == s[c - 1]);
                            if c - 1 > i {
                                assert(seq_lt(s[i as int].0@, s[c - 1].0@));
                                lemma_seq_order_trans(label@, s[i as int].0@, s[c - 1].0@);
                            }
                        } else if a < i {
                            assert(t[a] == s[a] && t[c] == s[c - 1]);
                        } else {
                            assert(t[a] == s[a - 1] && t[c] == s[c - 1]);
                        }
                    }
                }
                lemma_entries_map(t);
                assert(entries_map(t) =~= entries_map(s).insert(label@, path@)) by {
                    assert forall|l: Seq<char>| #[trigger] entries_map(t).contains_key(l) <==> entries_map(s).insert(label@, path@).contains_key(l) by {
                        if entries_map(t).contains_key(l) {
                            let k = choose|k: int| 0 <= k < t.len() && t[k].0@ == l;
                            if k < i {
                                assert(t[k] == s[k]);
                            } else if k > i {
                                assert(t[k] == s[k - 1]);
                            }
                        }
                        if entries_map(s).contains_key(l) {
                            let k = choose|k: int| 0 <= k < s.len() && s[k].0@ == l;
                            if k < i {
                                assert(t[k] == s[k]);
                                assert(entries_map(t).contains_key(t[k].0@));
                            } else {
                                assert(t[k + 1] == s[k]);
                                assert(entries_map(t).contains_key(t[k + 1].0@));
                            }
                        }
                        if l == label@ {
                            assert(t[i as int].0@ == label@);
                            assert(entries_map(t).contains_key(t[i as int].0@));
                        }
                    }
                    assert forall|l: Seq<char>| #[trigger] entries_map(t).contains_key(l) implies entries_map(t)[l] == entries_map(s).insert(label@, path@)[l] by {
                        let k = choose|k: int| 0 <= k < t.len() && t[k].0@ == l;
                        if k < i {
                            assert(t[k] == s[k]);
                            assert(l != label@) by {
                                lemma_seq_order_eq(s[k].0@, label@);
                            }
                        } else if k > i {
                            assert(t[k] == s[k - 1]);
                            assert(l != label@) by {
                                lemma_seq_order_eq(t[i as int].0@, t[k].0@);
                            }
                        }
                    }
                }
            }
        }
        Bookmarks { entries }
    }

    /// Return a new `Bookmarks` with the given label removed.
    pub fn without_bookmark(self, label: &str) -> (b: Self)
        requires
            self.wf(),
        ensures
            b.wf(),
            b@ == self@.remove(label@),
    {
        let mut entries = self.entries;
        let ghost s = entries@;
        proof {
            lemma_entries_map(s);
        }
        let mut i: usize = 0;
        while i < entries.len() && str_order(entries[i].0.as_str(), label) != 0
            invariant
                i <= entries.len(),
                entries@ == s,
                forall|k: int| 0 <= k < i ==> (#[trigger] s[k]).0@ != label@,
            decreases entries.len() - i,
        {
            proof {
                lemma_seq_order_eq(s[i as int].0@, label@);
            }
            i = i + 1;
        }
        if i < entries.len() {
            proof {
                lemma_seq_order_eq(s[i as int].0@, label@);
            }
            entries.remove(i);
            proof {
                let t = entries@;
                assert(labels_sorted(t)) by {
                    assert forall|a: int, c: int| 0 <= a < c < t.len() implies seq_lt((#[trigger] t[a]).0@, (#[trigger] t[c]).0@) by {
                        let oa = if a < i { a } else { a + 1 };
                        let oc = if c < i { c } else { c + 1 };
                        assert(t[a] == s[oa] && t[c] == s[oc]);
                    }
                }
                lemma_entries_map(t);
                assert(entries_map(t) =~= entries_map(s).remove(label@)) by {
                    assert forall|l: Seq<char>| #[trigger] entries_map(t).contains_key(l) <==> entries_map(s).remove(label@).contains_key(l) by {
                        if entries_map(t).contains_key(l) {
                            let k = choose|k: int| 0 <= k < t.len() && t[k].0@ == l;
                            let ok = if k < i { k } else { k + 1 };
                            assert(t[k] == s[ok]);
                            assert(l != label@) by {
                                lemma_seq_order_eq(s[ok].0@, s[i as int].0@);
                            }
                        }
                        if entries_map(s).remove(label@).contains_key(l) {
                            let k = choose|k: int| 0 <= k < s.len() && s[k].0@ == l;
                            if k < i {
                                assert(t[k] == s[k]);
                            } else {
                                assert(k != i);
                                assert(t[k - 1] == s[k]);
                            }
                        }
                    }
                    assert forall|l: Seq<char>| #[trigger] entries_map(t).contains_key(l) implies entries_map(t)[l] == entries_map(s).remove(label@)[l] by {
                        let k = choose|k: int| 0 <= k < t.len() && t[k].0@ == l;
                        let ok = if k < i { k } else { k + 1 };
                        assert(t[k] == s[ok]);
                    }
                }
            }
        } else {
            proof {
                assert(!entries_map(s).contains_key(label@));
                assert(entries_map(s).remove(label@) =~= entries_map(s));
            }
        }
        Bookmarks { entries }
    }

    /// Look up a bookmark by label.
    pub fn get(&self, label: &str) -> (r: Option<&String>)
        requires
            self.wf(),
        ensures
            r is None <==> !self@.contains_key(label@),
            r matches Some(p) ==> p@ == self@[label@],
    {
        let mut i: usize = 0;
        while i < self.entries.len()
            invariant
                i <= self.entries.len(),
                self.wf(),
                forall|k: int| 0 <= k < i ==> (#[trigger] self.entries@[k]).0@ != label@,
            decreases self.entries.len() - i,
        {
            proof {
                lemma_seq_order_eq(self.entries@[i as int].0@, label@);
            }
            if str_order(self.entries[i].0.as_str(), label) == 0 {
                proof {
                    lemma_entries_map(self.entries@);
                    assert(entries_map(self.entries@).contains_key(self.entries@[i as int].0@));
                }
                return Some(&self.entries[i].1);
            }
            i = i + 1;
        }
        proof {
            lemma_entries_map(self.entries@);
        }
        None
    }

    /// Returns `true` if a bookmark with the given label exists.
    pub fn contains(&self, label: &str) -> (b: bool)
        requires
            self.wf(),
        ensures
            b == self@.contains_key(label@),
    {
        self.get(label).is_some()
    }

    /// Returns all bookmark labels in sorted order.
    pub fn labels(&self) -> (r: Vec<&str>)
        requires
            self.wf(),
        ensures
            r@.map_values(|l: &str| l@) == self.label_list(),
    {
        let mut out: Vec<&str> = Vec::new();
        for i in 0..self.entries.len()
            invariant
                out@.map_values(|l: &str| l@) == labels_of(self.entries@.take(i as int)),
        {
            let ghost before = out@;
            out.push(self.entries[i].0.as_str());
            proof {
                assert(out@.map_values(|l: &str| l@) =~= before.map_values(|l: &str| l@).push(self.entries@[i as int].0@));
                assert(labels_of(self.entries@.take(i + 1)) =~= labels_of(self.entries@.take(i as int)).push(self.entries@[i as int].0@));
            }
        }
        proof {
            assert(self.entries@.take(self.entries.len() as int) =~= self.entries@);
        }
        out
    }

    /// All bookmarks as (label, path) pairs in sorted label order.
    pub fn iter(&self) -> (r: &[(String, String)])
        requires
            self.wf(),
        ensures
            labels_of(r@) == self.label_list(),
            forall|i: int| 0 <= i < r@.len() ==> (#[trigger] r@[i]).1@ == self@[r@[i].0@],
    {
        proof {
            lemma_entries_map(self.entries@);
            assert forall|i: int| 0 <= i < self.entries@.len() implies (#[trigger] self.entries@[i]).1@ == self@[self.entries@[i].0@] by {
                assert(entries_map(self.entries@).contains_key(self.entries@[i].0@));
            }
        }
        self.entries.as_slice()
    }

    /// Number of bookmarks.
    pub fn len(&self) -> (n: usize)
        requires
            self.wf(),
        ensures
            n == self@.len(),
    {
        proof {
            lemma_entries_map(self.entries@);
        }
        self.entries.len()
    }

    /// Whether the collection is empty.
    pub fn is_empty(&self) -> (b: bool)
        requires
            self.wf(),
        ensures
            b == (self@.len() == 0),
    {
        proof {
            lemma_entries_map(self.entries@);
        }
        self.entries.len() == 0
    }
}

/// Reading a bookmark right after writing it gives back what was written,
/// and leaves every other label as it was.
pub proof fn law_bookmark_read_after_write(
    m: Map<Seq<char>, Seq<char>>,
    label: Seq<char>,
    path: Seq<char>,
    other: Seq<char>,
)
    ensures
        m.insert(label, path).contains_key(label),
        m.insert(label, path)[label] == path,
        other != label ==> (m.insert(label, path).contains_key(other) == m.contains_key(other)),
        other != label && m.contains_key(other) ==> m.insert(label, path)[other] == m[other],
{
}

/// Removing a bookmark leaves no bookmark under that label and every other
/// label as it was; the count drops by one exactly when the label was there,
/// and adding a new label and removing it again gives back the bookmarks
/// one started from.
pub proof fn law_bookmark_remove(m: Map<Seq<char>, Seq<char>>, label: Seq<char>, path: Seq<char>, other: Seq<char>)
    requires
        m.dom().finite(),
    ensures
        !m.remove(label).contains_key(label),
        other != label ==> (m.remove(label).contains_key(other) == m.contains_key(other)),
        other != label && m.contains_key(other) ==> m.remove(label)[other] == m[other],
        m.remove(label).len() == m.len() - (if m.contains_key(label) { 1int } else { 0int }),
        !m.contains_key(label) ==> m.insert(label, path).remove(label) == m,
{
    if m.contains_key(label) {
        assert(m.remove(label).len() == m.len() - 1);
    } else {
        assert(m.remove(label) =~= m);
        assert(m.insert(label, path).remove(label) =~= m);
    }
}

} // verus!

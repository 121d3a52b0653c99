//! Key binding configuration.
//!
//! Key bindings map key names (e.g. `"j"`, `"gg"`, `"Enter"`) to [`Action`]
//! values. The default bindings follow vim conventions. Configuration files
//! use string action identifiers (e.g. `"cursor_down"`); these are resolved
//! to [`Action`] through the [`ActionRegistry`] when a keymap is built.

use vstd::prelude::*;
use crate::action::{action_table, first_with_id, Action, ActionRegistry};
use crate::sort::{
    index_hit, is_perm_by, is_stable_sort, lemma_filter_step, seq_filter, stable_sort, stably_ordered,
    SortKey,
};
use crate::text::{
    chars_of, chars_order, lemma_seq_order_antisym, lemma_seq_order_eq, lemma_seq_order_trans,
    seq_order, str_eq,
};

verus! {

/// A single key-to-action mapping as written in configuration files.
#[derive(Debug, Clone, PartialEq, Eq)]
pub struct KeyBinding {
    /// The key name (e.g. `"j"`, `"Enter"`, `"Space"`).
    pub key: String,
    /// The action identifier (e.g. `"cursor_down"`, `"open"`).
    pub action: String,
}

/// The map that a list of (key, action) pairs stands for; a later pair for
/// the same key replaces an earlier one.
pub open spec fn binding_map(s: Seq<(String, Action)>) -> Map<Seq<char>, Action>
    decreases s.len(),
{
    if s.len() == 0 {
        Map::empty()
    } else {
        binding_map(s.drop_last()).insert(s.last().0@, s.last().1)
    }
}

/// No key occurs twice in the list.
pub open spec fn keys_unique(s: Seq<(String, Action)>) -> bool {
    forall|i: int, j: int| 0 <= i < j < s.len() ==> (#[trigger] s[i]).0@ != (#[trigger] s[j]).0@
}

proof fn lemma_binding_map(s: Seq<(String, Action)>)
    requires
        keys_unique(s),
    ensures
        forall|i: int| 0 <= i < s.len() ==> #[trigger] binding_map(s).contains_key(s[i].0@)
            && binding_map(s)[s[i].0@] == s[i].1,
        forall|k: Seq<char>| #[trigger] binding_map(s).contains_key(k) ==> exists|i: int| 0 <= i < s.len() && s[i].0@ == k,
    decreases s.len(),
{
    if s.len() > 0 {
        let t = s.drop_last();
        lemma_binding_map(t);
        assert forall|k: Seq<char>| #[trigger] binding_map(s).contains_key(k) implies exists|i: int| 0 <= i < s.len() && s[i].0@ == k by {
            if k != s.last().0@ {
                assert(binding_map(t).contains_key(k));
                let i = choose|i: int| 0 <= i < t.len() && t[i].0@ == k;
                assert(s[i] == t[i]);
                assert(s[i].0@ == k);
            } else {
                assert(s[s.len() - 1].0@ == k);
            }
        }
        assert(binding_map(s) == binding_map(t).insert(s.last().0@, s.last().1));
        assert forall|i: int| 0 <= i < s.len() implies #[trigger] binding_map(s).contains_key(s[i].0@)
            && binding_map(s)[s[i].0@] == s[i].1 by {
            if i < s.len() - 1 {
                assert(s[i] == t[i]);
                assert(binding_map(t).contains_key(t[i].0@));
                assert(s[i].0@ != s[s.len() - 1].0@);
            } else {
                assert(s[i] == s.last());
            }
        }
    }
}

/// Binds `key` to `action` in a list of unique keys: an existing binding of
/// the key is replaced, otherwise the pair is appended.
fn insert_binding(bindings: &mut Vec<(String, Action)>, key: String, action: Action)
    requires
        keys_unique(old(bindings)@),
    ensures
        keys_unique(final(bindings)@),
        binding_map(final(bindings)@) == binding_map(old(bindings)@).insert(key@, action),
{
    let ghost s = bindings@;
    proof {
        lemma_binding_map(s);
    }
    let mut i: usize = 0;
    while i < bindings.len()
        invariant
            i <= bindings.len(),
            bindings@ == s,
            s == old(bindings)@,
            keys_unique(s),
            forall|k: int| 0 <= k < i ==> (#[trigger] s[k]).0@ != key@,
        decreases bindings.len() - i,
    {
        if str_eq(bindings[i].0.as_str(), key.as_str()) {
            proof {
                lemma_binding_map(s);
            }
            bindings.set(i, (key, action));
            proof {
                let t = bindings@;
                assert(keys_unique(t)) by {
                    assert forall|a: int, c: int| 0 <= a < c < t.len() implies (#[trigger] t[a]).0@ != (#[trigger] t[c]).0@ by {
                        assert(s[a].0@ != s[c].0@);
                    }
                }
                lemma_binding_map(t);
                assert(binding_map(t) =~= binding_map(s).insert(key@, action)) by {
                    assert forall|k: Seq<char>| #[trigger] binding_map(t).contains_key(k) <==> binding_map(s).insert(key@, action).contains_key(k) by {
                        if binding_map(t).contains_key(k) {
                            let m = choose|m: int| 0 <= m < t.len() && t[m].0@ == k;
                            if m != i {
                                assert(t[m] == s[m]);
                            }
                        }
                        if binding_map(s).contains_key(k) {
                            let m = choose|m: int| 0 <= m < s.len() && s[m].0@ == k;
                            if m != i {
                                assert(t[m] == s[m]);
                            }
                            assert(t[m].0@ == k);
                            assert(binding_map(t).contains_key(t[m].0@));
                        }
                        if k == key@ {
                            assert(binding_map(t).contains_key(t[i as int].0@));
                        }
                    }
                    assert forall|k: Seq<char>| #[trigger] binding_map(t).contains_key(k) implies binding_map(t)[k] == binding_map(s).insert(key@, action)[k] by {
                        let m = choose|m: int| 0 <= m < t.len() && t[m].0@ == k;
                        if m != i {
                            assert(t[m] == s[m]);
                        }
                    }
                }
            }
            return;
        }
        i = i + 1;
    }
    bindings.push((key, action));
    proof {
        assert(bindings@.drop_last() =~= s);
    }
}

/// The default vim-style bindings.
pub open spec fn default_bindings() -> Map<Seq<char>, Action> {
    Map::<Seq<char>, Action>::empty()
        .insert("j"@, Action::CursorDown)
        .insert("k"@, Action::CursorUp)
        .insert("h"@, Action::GoParent)
        .insert("l"@, Action::EnterDir)
        .insert("gg"@, Action::CursorTop)
        .insert("G"@, Action::CursorBottom)
        .insert("Enter"@, Action::Open)
        .insert("y"@, Action::Copy)
        .insert("d"@, Action::Delete)
        .insert("p"@, Action::Pager)
        .insert("r"@, Action::Rename)
        .insert("."@, Action::ToggleHidden)
        .insert("/"@, Action::Search)
        .insert("s"@, Action::SortCycle)
        .insert("b"@, Action::BookmarkAdd)
        .insert("'"@, Action::BookmarkGo)
        .insert("R"@, Action::RecentFiles)
        .insert("D"@, Action::DuplicateFiles)
        .insert("q"@, Action::Quit)
        .insert("?"@, Action::Help)
        .insert(":"@, Action::CommandPalette)
        .insert("Tab"@, Action::PanelToggleDual)
        .insert("1"@, Action::PanelFocusLeft)
        .insert("2"@, Action::PanelFocusRight)
        .insert("t"@, Action::TabNew)
        .insert("w"@, Action::TabClose)
        .insert("]"@, Action::TabNext)
        .insert("["@, Action::TabPrev)
}

/// The bindings that a raw (key, action id) list resolves to: pairs whose
/// id the registry knows become bindings, later pairs replacing earlier
/// ones for the same key; unknown ids are ignored.
pub open spec fn resolved_bindings(raw: Seq<(String, String)>) -> Map<Seq<char>, Action>
    decreases raw.len(),
{
    if raw.len() == 0 {
        Map::empty()
    } else {
        let rest = resolved_bindings(raw.drop_last());
        match first_with_id(action_table(), raw.last().1@) {
            Some(i) => rest.insert(raw.last().0@, action_table()[i].action),
            None => rest,
        }
    }
}

/// Key for sorting key names in ascending text order.
pub struct TextKey(pub Vec<char>);

impl SortKey for TextKey {
    open spec fn key_order(self, other: Self) -> int {
        seq_order(self.0@, other.0@)
    }

    proof fn lemma_key_order_antisym(a: Self, b: Self) {
        lemma_seq_order_antisym(a.0@, b.0@);
        lemma_seq_order_eq(a.0@, b.0@);
    }

    proof fn lemma_key_order_trans(a: Self, b: Self, c: Self) {
        lemma_seq_order_trans(a.0@, b.0@, c.0@);
    }

    fn compare_keys(&self, other: &Self) -> (r: i8) {
        chars_order(self.0.as_slice(), other.0.as_slice())
    }
}

/// Complete set of key bindings.
#[derive(Debug, Clone)]
pub struct Keymap {
    bindings: Vec<(String, Action)>,
}

impl View for Keymap {
    type V = Map<Seq<char>, Action>;

    closed spec fn view(&self) -> Map<Seq<char>, Action> {
        binding_map(self.bindings@)
    }
}

impl Keymap {
    /// No key is bound twice.
    pub closed spec fn wf(&self) -> bool {
        keys_unique(self.bindings@)
    }

    /// Converts a raw (key, action id) list into a resolved keymap.
    ///
    /// Action identifiers are resolved via [`ActionRegistry::find_by_id`];
    /// unknown identifiers are silently ignored.
    pub fn from_raw(raw: Vec<(String, String)>) -> (k: Self)
        ensures
            k.wf(),
            k@ == resolved_bindings(raw@),
    {
        let registry = ActionRegistry::new();
        let mut bindings: Vec<(String, Action)> = Vec::new();
        let ghost rv = raw@;
        for i in 0..raw.len()
            invariant
                registry.table() == action_table(),
                rv == raw@,
                keys_unique(bindings@),
                binding_map(bindings@) == resolved_bindings(rv.take(i as int)),
        {
            proof {
                assert(rv.take(i + 1).drop_last() =~= rv.take(i as int));
                assert(rv.take(i + 1).last() == rv[i as int]);
            }
            match registry.find_by_id(raw[i].1.as_str()) {
                Some(action) => {
                    insert_binding(&mut bindings, raw[i].0.clone(), action);
                },
                None => {},
            }
        }
        proof {
            assert(rv.take(rv.len() as int) =~= rv);
        }
        Keymap { bindings }
    }

    /// Returns the action mapped to `key`, or `None` if unbound.
    pub fn action_for_key(&self, key: &str) -> (r: Option<Action>)
        requires
            self.wf(),
        ensures
            r is None <==> !self@.contains_key(key@),
            r matches Some(a) ==> a == self@[key@],
    {
        proof {
            lemma_binding_map(self.bindings@);
        }
        let mut i: usize = 0;
        while i < self.bindings.len()
            invariant
                i <= self.bindings.len(),
                keys_unique(self.bindings@),
                forall|k: int| 0 <= k < i ==> (#[trigger] self.bindings@[k]).0@ != key@,
            decreases self.bindings.len() - i,
        {
            if str_eq(self.bindings[i].0.as_str(), key) {
                proof {
                    lemma_binding_map(self.bindings@);
                    assert(binding_map(self.bindings@).contains_key(self.bindings@[i as int].0@));
                }
                return Some(self.bindings[i].1);
            }
            i = i + 1;
        }
        proof {
            lemma_binding_map(self.bindings@);
        }
        None
    }

    /// Returns the keys bound to a given action in ascending order, or
    /// `None` when no key is bound to it.
    pub fn keys_for_action(&self, action: Action) -> (r: Option<Vec<String>>)
        requires
            self.wf(),
        ensures
            r is None <==> !(exists|k: Seq<char>| self@.contains_key(k) && self@[k] == action),
            r matches Some(ks) ==> {
                &&& forall|i: int, j: int| 0 <= i < j < ks@.len() ==> seq_order((#[trigger] ks@[i])@, (#[trigger] ks@[j])@) < 0
                &&& forall|k: Seq<char>| (self@.contains_key(k) && self@[k] == action) <==> keys_contain(ks@, k)
            },
    {
        let ghost s = self.bindings@;
        let mut keys: Vec<String> = Vec::new();
        let mut sort_keys: Vec<TextKey> = Vec::new();
        for i in 0..self.bindings.len()
            invariant
                s == self.bindings@,
                keys.len() == sort_keys.len(),
                keys@ == keys_with(s.take(i as int), action),
                forall|m: int| 0 <= m < keys.len() ==> (#[trigger] sort_keys@[m]).0@ == keys@[m]@,
        {
            proof {
                lemma_keys_with_step(s, action, i as int);
            }
            if self.bindings[i].1 == action {
                let k = self.bindings[i].0.clone();
                let ck = chars_of(k.as_str());
                keys.push(k);
                sort_keys.push(TextKey(ck));
            }
        }
        proof {
            assert(s.take(s.len() as int) =~= s);
            lemma_keys_with(s, action);
        }
        if keys.len() == 0 {
            return None;
        }
        let ghost kv = keys@;
        let ghost skv = sort_keys@;
        proof {
            assert(keys_contain(kv, kv[0]@));
            assert(self@.contains_key(kv[0]@) && self@[kv[0]@] == action);
        }
        let sorted = stable_sort(keys, sort_keys);
        proof {
            lemma_sorted_keys(sorted@, kv, skv);
        }
        Some(sorted)
    }

    /// Returns all bindings (for iteration / display).
    pub fn bindings(&self) -> (r: &[(String, Action)])
        requires
            self.wf(),
        ensures
            binding_map(r@) == self@,
            keys_unique(r@),
    {
        self.bindings.as_slice()
    }
}

/// Some key in `ks` reads `k`.
pub open spec fn keys_contain(ks: Seq<String>, k: Seq<char>) -> bool {
    exists|i: int| 0 <= i < ks.len() && ks[i]@ == k
}

/// Holds of a binding to `action`.
pub open spec fn bound_to(action: Action) -> spec_fn((String, Action)) -> bool {
    |b: (String, Action)| b.1 == action
}

/// The keys bound to `action` in a list of bindings, in list order.
pub open spec fn keys_with(s: Seq<(String, Action)>, action: Action) -> Seq<String> {
    seq_filter(s, bound_to(action)).map_values(|b: (String, Action)| b.0)
}

proof fn lemma_keys_with_step(s: Seq<(String, Action)>, action: Action, i: int)
    requires
        0 <= i < s.len(),
    ensures
        keys_with(s.take(i + 1), action) == if s[i].1 == action {
            keys_with(s.take(i), action).push(s[i].0)
        } else {
            keys_with(s.take(i), action)
        },
{
    lemma_filter_step(s, bound_to(action), i);
    let r = seq_filter(s.take(i), bound_to(action));
    if s[i].1 == action {
        assert(r.push(s[i]).map_values(|b: (String, Action)| b.0) =~= r.map_values(
            |b: (String, Action)| b.0,
        ).push(s[i].0));
    }
}

proof fn lemma_keys_with(s: Seq<(String, Action)>, action: Action)
    requires
        keys_unique(s),
    ensures
        forall|a: int, c: int| 0 <= a < c < keys_with(s, action).len() ==> (#[trigger] keys_with(s, action)[a])@ != (#[trigger] keys_with(s, action)[c])@,
        forall|k: Seq<char>|
            #![trigger keys_contain(keys_with(s, action), k)]
            #![trigger binding_map(s).contains_key(k)]
            (binding_map(s).contains_key(k) && binding_map(s)[k] == action) <==> keys_contain(keys_with(s, action), k),
    decreases s.len(),
{
    let f = bound_to(action);
    lemma_binding_map(s);
    if s.len() > 0 {
        let t = s.drop_last();
        lemma_keys_with(t, action);
        lemma_binding_map(t);
        let kt = keys_with(t, action);
        let ks = keys_with(s, action);
        let last = s.last();
        assert(seq_filter(s, f) == if f(last) { seq_filter(t, f).push(last) } else { seq_filter(t, f) });
        if f(last) {
            assert(ks =~= kt.push(last.0));
        } else {
            assert(ks =~= kt);
        }
        assert forall|m: int| 0 <= m < kt.len() implies (#[trigger] kt[m])@ != last.0@ by {
            if kt[m]@ == last.0@ {
                assert(keys_contain(kt, last.0@));
                assert(binding_map(t).contains_key(last.0@));
                let j = choose|j: int| 0 <= j < t.len() && t[j].0@ == last.0@;
                assert(s[j] == t[j]);
                assert(s[j].0@ != s[s.len() - 1].0@);
            }
        }
        assert forall|k: Seq<char>| (binding_map(s).contains_key(k) && binding_map(s)[k] == action) <==> keys_contain(ks, k) by {
            if k == last.0@ {
                if f(last) {
                    assert(ks[ks.len() - 1]@ == k);
                } else {
                    if keys_contain(ks, k) {
                        let m = choose|m: int| 0 <= m < ks.len() && ks[m]@ == k;
                        assert(kt[m]@ == k);
                    }
                }
            } else {
                if keys_contain(ks, k) {
                    let m = choose|m: int| 0 <= m < ks.len() && ks[m]@ == k;
                    if m < kt.len() {
                        assert(kt[m]@ == k);
                    }
                }
                if keys_contain(kt, k) {
                    let m = choose|m: int| 0 <= m < kt.len() && kt[m]@ == k;
                    assert(ks[m]@ == k);
                }
            }
        }
    } else {
        assert(keys_with(s, action) =~= Seq::<String>::empty());
    }
}

proof fn lemma_sorted_keys(sorted: Seq<String>, kv: Seq<String>, skv: Seq<TextKey>)
    requires
        is_stable_sort(sorted, kv, skv),
        skv.len() == kv.len(),
        forall|m: int| 0 <= m < kv.len() ==> (#[trigger] skv[m]).0@ == kv[m]@,
        forall|a: int, c: int| 0 <= a < c < kv.len() ==> (#[trigger] kv[a])@ != (#[trigger] kv[c])@,
    ensures
        forall|i: int, j: int| 0 <= i < j < sorted.len() ==> seq_order((#[trigger] sorted[i])@, (#[trigger] sorted[j])@) < 0,
        forall|k: Seq<char>| keys_contain(kv, k) <==> keys_contain(sorted, k),
{
    let p = choose|p: Seq<int>| is_perm_by(sorted, kv, p) && stably_ordered(skv, p);
    assert forall|i: int, j: int| 0 <= i < j < sorted.len() implies seq_order((#[trigger] sorted[i])@, (#[trigger] sorted[j])@) < 0 by {
        assert(skv[p[i]].key_order(skv[p[j]]) <= 0);
        lemma_seq_order_eq(kv[p[i]]@, kv[p[j]]@);
        if p[i] < p[j] {
            assert(kv[p[i]]@ != kv[p[j]]@);
        } else {
            assert(kv[p[j]]@ != kv[p[i]]@);
        }
    }
    assert forall|k: Seq<char>| keys_contain(kv, k) <==> keys_contain(sorted, k) by {
        if keys_contain(kv, k) {
            let m = choose|m: int| 0 <= m < kv.len() && kv[m]@ == k;
            assert(index_hit(p, m));
            let q = choose|q: int| 0 <= q < p.len() && p[q] == m;
            assert(sorted[q]@ == k);
        }
        if keys_contain(sorted, k) {
            let q = choose|q: int| 0 <= q < sorted.len() && sorted[q]@ == k;
            assert(kv[p[q]]@ == k);
        }
    }
}

impl Default for Keymap {
    fn default() -> (k: Self)
        ensures
            k.wf(),
            k@ == default_bindings(),
    {
        let mut bindings: Vec<(String, Action)> = Vec::new();
        insert_binding(&mut bindings, "j".to_owned(), Action::CursorDown);
        insert_binding(&mut bindings, "k".to_owned(), Action::CursorUp);
        insert_binding(&mut bindings, "h".to_owned(), Action::GoParent);
        insert_binding(&mut bindings, "l".to_owned(), Action::EnterDir);
        insert_binding(&mut bindings, "gg".to_owned(), Action::CursorTop);
        insert_binding(&mut bindings, "G".to_owned(), Action::CursorBottom);
        insert_binding(&mut bindings, "Enter".to_owned(), Action::Open);
        insert_binding(&mut bindings, "y".to_owned(), Action::Copy);
        insert_binding(&mut bindings, "d".to_owned(), Action::Delete);
        insert_binding(&mut bindings, "p".to_owned(), Action::Pager);
        insert_binding(&mut bindings, "r".to_owned(), Action::Rename);
        insert_binding(&mut bindings, ".".to_owned(), Action::ToggleHidden);
        insert_binding(&mut bindings, "/".to_owned(), Action::Search);
        insert_binding(&mut bindings, "s".to_owned(), Action::SortCycle);
        insert_binding(&mut bindings, "b".to_owned(), Action::BookmarkAdd);
        insert_binding(&mut bindings, "'".to_owned(), Action::BookmarkGo);
        insert_binding(&mut bindings, "R".to_owned(), Action::RecentFiles);
        insert_binding(&mut bindings, "D".to_owned(), Action::DuplicateFiles);
        insert_binding(&mut bindings, "q".to_owned(), Action::Quit);
        insert_binding(&mut bindings, "?".to_owned(), Action::Help);
        insert_binding(&mut bindings, ":".to_owned(), Action::CommandPalette);
        insert_binding(&mut bindings, "Tab".to_owned(), Action::PanelToggleDual);
        insert_binding(&mut bindings, "1".to_owned(), Action::PanelFocusLeft);
        insert_binding(&mut bindings, "2".to_owned(), Action::PanelFocusRight);
        insert_binding(&mut bindings, "t".to_owned(), Action::TabNew);
        insert_binding(&mut bindings, "w".to_owned(), Action::TabClose);
        insert_binding(&mut bindings, "]".to_owned(), Action::TabNext);
        insert_binding(&mut bindings, "[".to_owned(), Action::TabPrev);
        Keymap { bindings }
    }
}

} // verus!

//! Stable sorting by precomputed keys.
//!
//! The library sorts file listings, search hits, recent files and duplicate
//! groups. Each caller computes a key per item; [`stable_sort`] orders the
//! items by those keys and keeps items with equal keys in their input order,
//! which is what `slice::sort_by` guarantees.

use vstd::prelude::*;

verus! {

/// A key whose `key_order` is a total preorder: `-1`, `0` or `1` as the first
/// key sorts before, together with, or after the second.
pub trait SortKey: Sized {
    spec fn key_order(self, other: Self) -> int;

    proof fn lemma_key_order_antisym(a: Self, b: Self)
        ensures
            a.key_order(b) == -b.key_order(a),
            -1 <= a.key_order(b) <= 1,
    ;

    proof fn lemma_key_order_trans(a: Self, b: Self, c: Self)
        requires
            a.key_order(b) <= 0,
            b.key_order(c) <= 0,
        ensures
            a.key_order(c) <= 0,
            a.key_order(b) < 0 || b.key_order(c) < 0 ==> a.key_order(c) < 0,
    ;

    fn compare_keys(&self, other: &Self) -> (r: i8)
        ensures
            r as int == self.key_order(*other),
    ;
}

/// `out` lists the items of `inp` in the order given by the index map `p`:
/// `p` is a bijection from positions of `out` to positions of `inp`.
pub open spec fn is_perm_by<T>(out: Seq<T>, inp: Seq<T>, p: Seq<int>) -> bool {
    &&& p.len() == out.len()
    &&& out.len() == inp.len()
    &&& forall|k: int| 0 <= k < p.len() ==> 0 <= #[trigger] p[k] < inp.len()
    &&& forall|k: int| 0 <= k < p.len() ==> out[k] == inp[#[trigger] p[k]]
    &&& forall|k: int, l: int| 0 <= k < l < p.len() ==> #[trigger] p[k] != #[trigger] p[l]
    &&& forall|m: int| 0 <= m < inp.len() ==> #[trigger] index_hit(p, m)
}

/// Some position of `p` holds `m`.
pub open spec fn index_hit(p: Seq<int>, m: int) -> bool {
    exists|k: int| 0 <= k < p.len() && p[k] == m
}

/// Taken in the order `p`, the keys never decrease, and items with equal keys
/// keep their input order.
pub open spec fn stably_ordered<K: SortKey>(keys: Seq<K>, p: Seq<int>) -> bool {
    forall|k: int, l: int|
        0 <= k < l < p.len() ==> {
            &&& (#[trigger] keys[p[k]]).key_order(#[trigger] keys[p[l]]) <= 0
            &&& keys[p[k]].key_order(keys[p[l]]) == 0 ==> p[k] < p[l]
        }
}

/// `out` is the stable sort of `inp` by `keys` (one key per input item).
pub open spec fn is_stable_sort<T, K: SortKey>(out: Seq<T>, inp: Seq<T>, keys: Seq<K>) -> bool {
    exists|p: Seq<int>| is_perm_by(out, inp, p) && stably_ordered(keys, p)
}

/// Sorts `items` by `keys` (one key per item), keeping items with equal keys
/// in their input order.
pub fn stable_sort<T, K: SortKey>(items: Vec<T>, keys: Vec<K>) -> (r: Vec<T>)
    requires
        items.len() == keys.len(),
    ensures
        is_stable_sort(r@, items@, keys@),
{
    let ghost orig_items = items@;
    let ghost orig_keys = keys@;
    let ghost n = items.len() as int;
    let mut items = items;
    let mut keys = keys;
    let mut out: Vec<T> = Vec::new();
    let mut out_keys: Vec<K> = Vec::new();
    let ghost mut p: Seq<int> = Seq::empty();
    while items.len() > 0
        invariant
            items.len() == keys.len(),
            items.len() <= n,
            n == orig_items.len(),
            n == orig_keys.len(),
            items@ == orig_items.take(items.len() as int),
            keys@ == orig_keys.take(items.len() as int),
            out.len() == n - items.len(),
            out_keys.len() == out.len(),
            p.len() == out.len(),
            forall|k: int| 0 <= k < p.len() ==> items.len() <= #[trigger] p[k] < n,
            forall|k: int| 0 <= k < p.len() ==> out@[k] == orig_items[#[trigger] p[k]],
            forall|k: int| 0 <= k < p.len() ==> out_keys@[k] == orig_keys[#[trigger] p[k]],
            forall|k: int, l: int| 0 <= k < l < p.len() ==> #[trigger] p[k] != #[trigger] p[l],
            forall|q: int| items.len() <= q < n ==> #[trigger] index_hit(p, q),
            stably_ordered(orig_keys, p),
        decreases items.len(),
    {
        let x = items.pop().unwrap();
        let kx = keys.pop().unwrap();
        let ghost m = items.len() as int;
        assert(items@ == orig_items.take(m));
        assert(x == orig_items[m]);
        assert(kx == orig_keys[m]);
        // Find the first position whose key does not sort strictly before kx.
        let mut j: usize = 0;
        while j < out_keys.len() && out_keys[j].compare_keys(&kx) < 0
            invariant
                j <= out_keys.len(),
                forall|k: int| 0 <= k < j ==> (#[trigger] out_keys@[k]).key_order(kx) < 0,
            decreases out_keys.len() - j,
        {
            j = j + 1;
        }
        proof {
            // Every key from position j on sorts together with or after kx.
            assert forall|k: int| j <= k < out_keys.len() implies
                kx.key_order(#[trigger] out_keys@[k]) <= 0 by {
                K::lemma_key_order_antisym(out_keys@[j as int], kx);
                K::lemma_key_order_antisym(out_keys@[k], kx);
                if k > j {
                    assert(orig_keys[p[j as int]].key_order(orig_keys[p[k]]) <= 0);
                    K::lemma_key_order_trans(kx, out_keys@[j as int], out_keys@[k]);
                }
            }
        }
        let ghost old_p = p;
        let ghost old_out = out@;
        let ghost old_keys = out_keys@;
        out.insert(j, x);
        out_keys.insert(j, kx);
        proof {
            p = old_p.insert(j as int, m);
            assert forall|k: int| 0 <= k < p.len() implies items.len() <= #[trigger] p[k] < n by {
                if k < j {
                    assert(p[k] == old_p[k]);
                } else if k > j {
                    assert(p[k] == old_p[k - 1]);
                }
            }
            assert forall|k: int| 0 <= k < p.len() implies out@[k] == orig_items[#[trigger] p[k]] by {
                if k < j {
                    assert(p[k] == old_p[k]);
                    assert(out@[k] == old_out[k]);
                } else if k > j {
                    assert(p[k] == old_p[k - 1]);
                    assert(out@[k] == old_out[k - 1]);
                }
            }
            assert forall|k: int| 0 <= k < p.len() implies out_keys@[k] == orig_keys[#[trigger] p[k]] by {
                if k < j {
                    assert(p[k] == old_p[k]);
                    assert(out_keys@[k] == old_keys[k]);
                } else if k > j {
                    assert(p[k] == old_p[k - 1]);
                    assert(out_keys@[k] == old_keys[k - 1]);
                }
            }
            assert forall|q: int| items.len() <= q < n implies #[trigger] index_hit(p, q) by {
                if q == m {
                    assert(p[j as int] == m);
                } else {
                    assert(index_hit(old_p, q));
                    let k = choose|k: int| 0 <= k < old_p.len() && old_p[k] == q;
                    if k < j {
                        assert(p[k] == q);
                    } else {
                        assert(p[k + 1] == q);
                    }
                }
            }
            assert forall|k: int, l: int| 0 <= k < l < p.len() implies #[trigger] p[k] != #[trigger] p[l] by {
                let ok = if k < j { k } else { k - 1 };
                let ol = if l < j { l } else { l - 1 };
                if k != j && l != j {
                    assert(p[k] == old_p[ok]);
                    assert(p[l] == old_p[ol]);
                } else if k == j {
                    assert(p[l] == old_p[ol]);
                } else {
                    assert(p[k] == old_p[ok]);
                }
            }
            assert forall|k: int, l: int| 0 <= k < l < p.len() implies {
                &&& (#[trigger] orig_keys[p[k]]).key_order(#[trigger] orig_keys[p[l]]) <= 0
                &&& orig_keys[p[k]].key_order(orig_keys[p[l]]) == 0 ==> p[k] < p[l]
            } by {
                let ok = if k < j { k } else { k - 1 };
                let ol = if l < j { l } else { l - 1 };
                if k != j && l != j {
                    assert(p[k] == old_p[ok]);
                    assert(p[l] == old_p[ol]);
                    assert(ok < ol);
                } else if k == j {
                    assert(p[k] == m);
                    assert(p[l] == old_p[ol]);
                    assert(old_keys[ol] == orig_keys[old_p[ol]]);
                    assert(kx.key_order(old_keys[ol]) <= 0);
                } else {
                    assert(p[l] == m);
                    assert(p[k] == old_p[ok]);
                    assert(old_keys[ok] == orig_keys[old_p[ok]]);
                    assert(old_keys[ok].key_order(kx) < 0);
                }
            }
        }
    }
    proof {
        assert(is_perm_by(out@, orig_items, p));
    }
    out
}

} // verus!

verus! {

/// `out` is the stable sort of `inp` under the preorder `ord` on items:
/// taken through the index map `p`, items never go down in `ord`, and items
/// that `ord` ranks together keep their input order.
pub open spec fn is_stable_sort_by<T>(out: Seq<T>, inp: Seq<T>, ord: spec_fn(T, T) -> int) -> bool {
    exists|p: Seq<int>|
        {
            &&& is_perm_by(out, inp, p)
            &&& forall|k: int, l: int|
                0 <= k < l < p.len() ==> {
                    &&& ord(inp[#[trigger] p[k]], inp[#[trigger] p[l]]) <= 0
                    &&& ord(inp[p[k]], inp[p[l]]) == 0 ==> p[k] < p[l]
                }
        }
}

/// A key sort carries over to the item order that the keys stand for.
pub proof fn lemma_stable_sort_by_keys<T, K: SortKey>(
    out: Seq<T>,
    inp: Seq<T>,
    keys: Seq<K>,
    ord: spec_fn(T, T) -> int,
)
    requires
        is_stable_sort(out, inp, keys),
        keys.len() == inp.len(),
        forall|i: int, j: int|
            0 <= i < inp.len() && 0 <= j < inp.len() ==> (#[trigger] keys[i]).key_order(
                #[trigger] keys[j],
            ) == ord(inp[i], inp[j]),
    ensures
        is_stable_sort_by(out, inp, ord),
{
    let p = choose|p: Seq<int>| is_perm_by(out, inp, p) && stably_ordered(keys, p);
    assert forall|k: int, l: int| 0 <= k < l < p.len() implies {
        &&& ord(inp[#[trigger] p[k]], inp[#[trigger] p[l]]) <= 0
        &&& ord(inp[p[k]], inp[p[l]]) == 0 ==> p[k] < p[l]
    } by {
        assert(keys[p[k]].key_order(keys[p[l]]) == ord(inp[p[k]], inp[p[l]]));
    }
}

/// Mapping every item through `f` keeps a stable sort a stable sort.
pub proof fn lemma_stable_sort_map<T, V>(
    out: Seq<T>,
    inp: Seq<T>,
    ord: spec_fn(T, T) -> int,
    f: spec_fn(T) -> V,
    vord: spec_fn(V, V) -> int,
)
    requires
        is_stable_sort_by(out, inp, ord),
        forall|a: T, b: T| #[trigger] ord(a, b) == vord(f(a), f(b)),
    ensures
        is_stable_sort_by(out.map_values(f), inp.map_values(f), vord),
{
    let p = choose|p: Seq<int>|
        {
            &&& is_perm_by(out, inp, p)
            &&& forall|k: int, l: int|
                0 <= k < l < p.len() ==> {
                    &&& ord(inp[#[trigger] p[k]], inp[#[trigger] p[l]]) <= 0
                    &&& ord(inp[p[k]], inp[p[l]]) == 0 ==> p[k] < p[l]
                }
        };
    let mo = out.map_values(f);
    let mi = inp.map_values(f);
    assert(is_perm_by(mo, mi, p));
    assert forall|k: int, l: int| 0 <= k < l < p.len() implies {
        &&& vord(mi[#[trigger] p[k]], mi[#[trigger] p[l]]) <= 0
        &&& vord(mi[p[k]], mi[p[l]]) == 0 ==> p[k] < p[l]
    } by {
        assert(ord(inp[p[k]], inp[p[l]]) == vord(f(inp[p[k]]), f(inp[p[l]])));
    }
}

/// Key for ordering by a signed integer, largest first.
pub struct DescKey(pub i128);

impl SortKey for DescKey {
    open spec fn key_order(self, other: Self) -> int {
        if self.0 > other.0 {
            -1
        } else if self.0 < other.0 {
            1
        } else {
            0
        }
    }

    proof fn lemma_key_order_antisym(a: Self, b: Self) {
    }

    proof fn lemma_key_order_trans(a: Self, b: Self, c: Self) {
    }

    fn compare_keys(&self, other: &Self) -> (r: i8) {
        if self.0 > other.0 {
            -1
        } else if self.0 < other.0 {
            1
        } else {
            0
        }
    }
}

/// The order of [`DescKey`] on plain integers: larger first.
pub open spec fn desc_order(a: int, b: int) -> int {
    if a > b {
        -1
    } else if a < b {
        1
    } else {
        0
    }
}

} // verus!

verus! {

/// The items of `s` for which `f` holds, in their order.
pub open spec fn seq_filter<T>(s: Seq<T>, f: spec_fn(T) -> bool) -> Seq<T>
    decreases s.len(),
{
    if s.len() == 0 {
        s
    } else {
        let r = seq_filter(s.drop_last(), f);
        if f(s.last()) {
            r.push(s.last())
        } else {
            r
        }
    }
}

/// One step of [`seq_filter`] over a growing prefix.
pub proof fn lemma_filter_step<T>(s: Seq<T>, f: spec_fn(T) -> bool, i: int)
    requires
        0 <= i < s.len(),
    ensures
        seq_filter(s.take(i + 1), f) == if f(s[i]) {
            seq_filter(s.take(i), f).push(s[i])
        } else {
            seq_filter(s.take(i), f)
        },
{
    assert(s.take(i + 1).drop_last() =~= s.take(i));
}

/// Filtering keeps nothing but items of the input.
pub proof fn lemma_filter_subset<T>(s: Seq<T>, f: spec_fn(T) -> bool)
    ensures
        forall|k: int| 0 <= k < seq_filter(s, f).len() ==> f(#[trigger] seq_filter(s, f)[k]) && s.contains(seq_filter(s, f)[k]),
        seq_filter(s, f).len() <= s.len(),
    decreases s.len(),
{
    if s.len() > 0 {
        lemma_filter_subset(s.drop_last(), f);
        let r = seq_filter(s.drop_last(), f);
        assert forall|k: int| 0 <= k < seq_filter(s, f).len() implies f(#[trigger] seq_filter(s, f)[k]) && s.contains(seq_filter(s, f)[k]) by {
            if k < r.len() {
                let x = r[k];
                let w = choose|w: int| 0 <= w < s.drop_last().len() && s.drop_last()[w] == x;
                assert(s[w] == x);
            } else {
                assert(s[s.len() - 1] == s.last());
            }
        }
    }
}

/// Filtering with a predicate that holds everywhere keeps everything.
pub proof fn lemma_filter_all<T>(s: Seq<T>, f: spec_fn(T) -> bool)
    requires
        forall|k: int| 0 <= k < s.len() ==> f(#[trigger] s[k]),
    ensures
        seq_filter(s, f) == s,
    decreases s.len(),
{
    if s.len() > 0 {
        lemma_filter_all(s.drop_last(), f);
        assert(s.drop_last().push(s.last()) =~= s);
    }
}

} // verus!

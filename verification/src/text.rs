//! Character-level string helpers shared by the rest of the library.
//!
//! Strings are reasoned about through their view, the sequence of their
//! `char`s.  Text operations whose full behaviour is defined by Unicode tables
//! (case mapping, normalisation) or by `std::path` are called behind small
//! wrappers whose results are named, not rebuilt.

use unicode_normalization::UnicodeNormalization;
use vstd::prelude::*;

verus! {

/// The characters of `s`, in order.
pub fn chars_of(s: &str) -> (r: Vec<char>)
    ensures
        r@ == s@,
{
    let mut out: Vec<char> = Vec::new();
    for c in it: s.chars()
        invariant
            out@ == it.seq().take(it.index() as int),
    {
        out.push(c);
    }
    out
}

/// Collects `cs` into a `String` (`FromIterator<char>` for `String`).
#[verifier::external_body]
pub fn string_from_chars(cs: &[char]) -> (r: String)
    ensures
        r@ == cs@,
{
    cs.iter().collect()
}

/// Appends `tail` to a copy of `head`.
pub fn concat(head: &str, tail: &str) -> (r: String)
    ensures
        r@ == head@ + tail@,
{
    let mut a = chars_of(head);
    let mut b = chars_of(tail);
    a.append(&mut b);
    string_from_chars(a.as_slice())
}

/// Text that `str::to_lowercase` produces for the given characters.
pub uninterp spec fn std_lowercase(s: Seq<char>) -> Seq<char>;

/// Calls `str::to_lowercase` (Unicode lower-case mapping).  Its result is
/// named [`std_lowercase`] of the input's characters; nothing more is claimed.
#[verifier::external_body]
pub fn to_lowercase(s: &str) -> (r: String)
    ensures
        r@ == std_lowercase(s@),
{
    s.to_lowercase()
}

/// Text that Unicode NFC composition (`unicode_normalization::nfc`) produces.
pub uninterp spec fn nfc_composed(s: Seq<char>) -> Seq<char>;

/// Normalises a string to NFC (composed) form with
/// `unicode_normalization::UnicodeNormalization::nfc`.  The result is named
/// [`nfc_composed`] of the input's characters; nothing more is claimed.
#[verifier::external_body]
pub fn nfc_string(s: &str) -> (r: String)
    ensures
        r@ == nfc_composed(s@),
{
    s.nfc().collect()
}

/// Final component that `std::path::Path::file_name` yields for a path.
pub uninterp spec fn std_file_name(p: Seq<char>) -> Option<Seq<char>>;

/// Calls `Path::file_name` on `p`; the result is named [`std_file_name`].
#[verifier::external_body]
pub fn path_file_name(p: &str) -> (r: Option<String>)
    ensures
        r matches Some(s) ==> std_file_name(p@) == Some(s@),
        r is None <==> std_file_name(p@) is None,
{
    std::path::Path::new(p).file_name().map(|n| n.to_string_lossy().into_owned())
}

/// Parent path that `std::path::Path::parent` yields for a path.
pub uninterp spec fn std_parent(p: Seq<char>) -> Option<Seq<char>>;

/// Calls `Path::parent` on `p`; the result is named [`std_parent`].
#[verifier::external_body]
pub fn path_parent(p: &str) -> (r: Option<String>)
    ensures
        r matches Some(s) ==> std_parent(p@) == Some(s@),
        r is None <==> std_parent(p@) is None,
{
    std::path::Path::new(p).parent().map(|n| n.to_string_lossy().into_owned())
}

/// Extension that `std::path::Path::extension` yields for a path.
pub uninterp spec fn std_extension(p: Seq<char>) -> Option<Seq<char>>;

/// Calls `Path::extension` on `p`; the result is named [`std_extension`].
#[verifier::external_body]
pub fn path_extension(p: &str) -> (r: Option<String>)
    ensures
        r matches Some(s) ==> std_extension(p@) == Some(s@),
        r is None <==> std_extension(p@) is None,
{
    std::path::Path::new(p).extension().map(|n| n.to_string_lossy().into_owned())
}

/// Path that `std::path::Path::join` yields for a base path and a name.
pub uninterp spec fn std_path_join(base: Seq<char>, name: Seq<char>) -> Seq<char>;

/// Calls `Path::join` and shows the result lossily; the result is named
/// [`std_path_join`] of the two texts.
#[verifier::external_body]
pub fn path_join(base: &str, name: &str) -> (r: String)
    ensures
        r@ == std_path_join(base@, name@),
{
    std::path::Path::new(base).join(name).to_string_lossy().into_owned()
}

/// Whether `std::path::Path` equality (component-wise) holds for two paths.
pub uninterp spec fn std_path_eq(a: Seq<char>, b: Seq<char>) -> bool;

/// Compares two paths with `Path`'s `==`, which compares their components
/// (so `/a//b` equals `/a/b`).  The result is named [`std_path_eq`]; the one
/// fact stated beside it is that equal strings are equal paths.
#[verifier::external_body]
pub fn path_eq(a: &str, b: &str) -> (r: bool)
    ensures
        r == std_path_eq(a@, b@),
        a@ == b@ ==> r,
{
    std::path::Path::new(a) == std::path::Path::new(b)
}

/// The decimal digit character for `d < 10`.
pub open spec fn digit_char(d: nat) -> char {
    ((d % 10) + 48) as char
}

/// Decimal representation of `n`, without sign or leading zeros.
pub open spec fn decimal(n: nat) -> Seq<char>
    decreases n,
{
    if n < 10 {
        seq![digit_char(n)]
    } else {
        decimal(n / 10).push(digit_char(n % 10))
    }
}

/// Decimal representation of `n`.
pub fn u64_to_decimal(n: u64) -> (r: Vec<char>)
    ensures
        r@ == decimal(n as nat),
    decreases n,
{
    let d = (n % 10) as u32;
    let c = char_of_digit(d);
    if n < 10 {
        let mut v: Vec<char> = Vec::new();
        v.push(c);
        v
    } else {
        let mut v = u64_to_decimal(n / 10);
        v.push(c);
        v
    }
}

/// The digit character for `d`.
pub fn char_of_digit(d: u32) -> (c: char)
    requires
        d < 10,
    ensures
        c == digit_char(d as nat),
{
    match d {
        0 => '0',
        1 => '1',
        2 => '2',
        3 => '3',
        4 => '4',
        5 => '5',
        6 => '6',
        7 => '7',
        8 => '8',
        _ => '9',
    }
}

/// Decimal representation of `n`, padded with zeros on the left to at least two digits.
pub open spec fn decimal2(n: nat) -> Seq<char> {
    if n < 10 {
        seq!['0'].add(decimal(n))
    } else {
        decimal(n)
    }
}

/// Two-digit zero-padded decimal of `n`.
pub fn u64_to_decimal2(n: u64) -> (r: Vec<char>)
    ensures
        r@ == decimal2(n as nat),
{
    let mut v: Vec<char> = Vec::new();
    if n < 10 {
        v.push('0');
    }
    let mut d = u64_to_decimal(n);
    v.append(&mut d);
    v
}

/// Lexicographic order of character sequences by code point: `-1` when
/// `a` sorts first, `0` when equal, `1` when `b` sorts first.  This is the
/// order of Rust's `str` comparison (UTF-8 byte order equals code-point order).
pub open spec fn seq_order(a: Seq<char>, b: Seq<char>) -> int
    decreases a.len(),
{
    if a.len() == 0 {
        if b.len() == 0 { 0 } else { -1 }
    } else if b.len() == 0 {
        1
    } else if (a[0] as int) < (b[0] as int) {
        -1
    } else if (a[0] as int) > (b[0] as int) {
        1
    } else {
        seq_order(a.drop_first(), b.drop_first())
    }
}

/// `a` sorts strictly before `b`.
pub open spec fn seq_lt(a: Seq<char>, b: Seq<char>) -> bool {
    seq_order(a, b) < 0
}

/// `seq_order` is zero exactly on equal sequences.
pub proof fn lemma_seq_order_eq(a: Seq<char>, b: Seq<char>)
    ensures
        (seq_order(a, b) == 0) == (a == b),
        -1 <= seq_order(a, b) <= 1,
    decreases a.len(),
{
    if a.len() == 0 || b.len() == 0 {
        if a.len() == 0 && b.len() == 0 {
            assert(a =~= b);
        } else {
            assert(a.len() != b.len());
        }
    } else if a[0] == b[0] {
        lemma_seq_order_eq(a.drop_first(), b.drop_first());
        if a.drop_first() == b.drop_first() {
            assert(a =~= seq![a[0]] + a.drop_first());
            assert(b =~= seq![b[0]] + b.drop_first());
        }
        if a == b {
            assert(a.drop_first() =~= b.drop_first());
        }
    } else {
        assert((a[0] as int) != (b[0] as int));
        assert(a != b);
    }
}

/// `seq_order` is antisymmetric.
pub proof fn lemma_seq_order_antisym(a: Seq<char>, b: Seq<char>)
    ensures
        seq_order(a, b) == -seq_order(b, a),
    decreases a.len(),
{
    if a.len() != 0 && b.len() != 0 && a[0] == b[0] {
        lemma_seq_order_antisym(a.drop_first(), b.drop_first());
    } else if a.len() != 0 && b.len() != 0 {
        assert((a[0] as int) != (b[0] as int));
    }
}

/// `seq_order` is transitive.
pub proof fn lemma_seq_order_trans(a: Seq<char>, b: Seq<char>, c: Seq<char>)
    requires
        seq_order(a, b) <= 0,
        seq_order(b, c) <= 0,
    ensures
        seq_order(a, c) <= 0,
        seq_order(a, b) < 0 || seq_order(b, c) < 0 ==> seq_order(a, c) < 0,
    decreases a.len(),
{
    lemma_seq_order_eq(a, b);
    lemma_seq_order_eq(b, c);
    if a.len() != 0 && b.len() != 0 && c.len() != 0 && a[0] == b[0] && b[0] == c[0] {
        lemma_seq_order_trans(a.drop_first(), b.drop_first(), c.drop_first());
    } else if a.len() != 0 && b.len() != 0 && c.len() != 0 {
        assert((a[0] as int) <= (b[0] as int));
    }
}

/// Compares two character sequences as [`seq_order`] does.
pub fn chars_order(a: &[char], b: &[char]) -> (r: i8)
    ensures
        r as int == seq_order(a@, b@),
{
    let mut i: usize = 0;
    assert(a@.skip(0) =~= a@);
    assert(b@.skip(0) =~= b@);
    while i < a.len() && i < b.len() && a[i] == b[i]
        invariant
            i <= a@.len(),
            i <= b@.len(),
            seq_order(a@, b@) == seq_order(a@.skip(i as int), b@.skip(i as int)),
        decreases a.len() - i,
    {
        proof {
            let sa = a@.skip(i as int);
            let sb = b@.skip(i as int);
            assert(sa[0] == a@[i as int]);
            assert(sb[0] == b@[i as int]);
        }
        assert(a@.skip(i as int).drop_first() =~= a@.skip(i + 1));
        assert(b@.skip(i as int).drop_first() =~= b@.skip(i + 1));
        i = i + 1;
    }
    if i == a.len() && i == b.len() {
        0
    } else if i == a.len() {
        -1
    } else if i == b.len() {
        1
    } else if a[i] < b[i] {
        -1
    } else {
        1
    }
}

/// Compares two strings as [`seq_order`] does.
pub fn str_order(a: &str, b: &str) -> (r: i8)
    ensures
        r as int == seq_order(a@, b@),
{
    let ca = chars_of(a);
    let cb = chars_of(b);
    chars_order(ca.as_slice(), cb.as_slice())
}

/// Whether two strings hold the same characters.
pub fn str_eq(a: &str, b: &str) -> (r: bool)
    ensures
        r == (a@ == b@),
{
    proof {
        lemma_seq_order_eq(a@, b@);
    }
    str_order(a, b) == 0
}

/// A fresh `String` holding the characters of `s`.
pub fn to_owned_string(s: &str) -> (r: String)
    ensures
        r@ == s@,
{
    s.to_owned()
}

/// The position of the first `c` in `s`.
pub open spec fn index_of_char(s: Seq<char>, c: char) -> Option<nat>
    decreases s.len(),
{
    if s.len() == 0 {
        None
    } else if s[0] == c {
        Some(0)
    } else {
        match index_of_char(s.drop_first(), c) {
            Some(i) => Some(i + 1),
            None => None,
        }
    }
}

/// A position of `c` found in `s` lies inside `s`.
pub proof fn lemma_index_of_char_bound(s: Seq<char>, c: char)
    ensures
        index_of_char(s, c) matches Some(i) ==> i < s.len(),
    decreases s.len(),
{
    if s.len() > 0 && s[0] != c {
        lemma_index_of_char_bound(s.drop_first(), c);
    }
}

/// The first `c` in `s` is at position `k` when none comes before it.
pub proof fn lemma_index_of_char(s: Seq<char>, c: char, k: int)
    requires
        0 <= k <= s.len(),
        forall|j: int| 0 <= j < k ==> #[trigger] s[j] != c,
        k == s.len() || s[k] == c,
    ensures
        index_of_char(s, c) == if k == s.len() { None } else { Some(k as nat) },
    decreases k,
{
    if k > 0 {
        let t = s.drop_first();
        assert forall|j: int| 0 <= j < k - 1 implies #[trigger] t[j] != c by {
            assert(t[j] == s[j + 1]);
        }
        if k < s.len() {
            assert(t[k - 1] == s[k]);
        }
        lemma_index_of_char(t, c, k - 1);
    }
}

/// What `std::path::Path::strip_prefix` leaves of a path after a base
/// path (`None` when the base is no prefix of it, component by component).
pub uninterp spec fn std_strip_prefix(p: Seq<char>, base: Seq<char>) -> Option<Seq<char>>;

/// Calls `Path::strip_prefix` and shows the rest lossily; the result is
/// named [`std_strip_prefix`].
#[verifier::external_body]
pub fn path_strip_prefix(p: &str, base: &str) -> (r: Option<String>)
    ensures
        r is None <==> std_strip_prefix(p@, base@) is None,
        r matches Some(s) ==> std_strip_prefix(p@, base@) == Some(s@),
{
    std::path::Path::new(p).strip_prefix(base).ok().map(|r| r.to_string_lossy().into_owned())
}

/// `pat` occurs in `s` at position `j`.
pub open spec fn occurs_at(s: Seq<char>, pat: Seq<char>, j: int) -> bool {
    0 <= j && j + pat.len() <= s.len() && s.subrange(j, j + pat.len()) == pat
}

/// The position of the first occurrence of `pat` in `s`.
pub open spec fn index_of_text(s: Seq<char>, pat: Seq<char>) -> Option<nat>
    decreases s.len(),
{
    if s.len() < pat.len() {
        None
    } else if s.take(pat.len() as int) == pat {
        Some(0)
    } else if s.len() == 0 {
        None
    } else {
        match index_of_text(s.drop_first(), pat) {
            Some(i) => Some(i + 1),
            None => None,
        }
    }
}

proof fn lemma_index_of_text(s: Seq<char>, pat: Seq<char>, k: int)
    requires
        0 <= k,
        forall|j: int| 0 <= j < k ==> !#[trigger] occurs_at(s, pat, j),
        occurs_at(s, pat, k) || k + pat.len() > s.len(),
    ensures
        index_of_text(s, pat) == if occurs_at(s, pat, k) { Some(k as nat) } else { None },
    decreases k,
{
    if k == 0 {
        if occurs_at(s, pat, 0) {
            assert(s.take(pat.len() as int) =~= s.subrange(0, pat.len() as int));
        }
    } else {
        if s.len() >= pat.len() {
            assert(!occurs_at(s, pat, 0));
            assert(s.take(pat.len() as int) =~= s.subrange(0, pat.len() as int));
            if s.len() > 0 {
                let t = s.drop_first();
                assert forall|j: int| 0 <= j < k - 1 implies !#[trigger] occurs_at(t, pat, j) by {
                    assert(!occurs_at(s, pat, j + 1));
                    if j + pat.len() <= t.len() {
                        assert(t.subrange(j, j + pat.len()) =~= s.subrange(j + 1, j + 1 + pat.len()));
                    }
                }
                if occurs_at(s, pat, k) {
                    assert(t.subrange(k - 1, k - 1 + pat.len()) =~= s.subrange(k, k + pat.len()));
                }
                if occurs_at(t, pat, k - 1) {
                    assert(t.subrange(k - 1, k - 1 + pat.len()) =~= s.subrange(k, k + pat.len()));
                }
                lemma_index_of_text(t, pat, k - 1);
            }
        }
    }
}

/// How many characters of `pat` agree with `s` from position `i` on.
fn common_prefix(s: &Vec<char>, pat: &Vec<char>, i: usize) -> (k: usize)
    requires
        i + pat.len() <= s.len(),
    ensures
        k <= pat@.len(),
        forall|m: int| 0 <= m < k ==> s@[i + m] == pat@[m],
        k < pat@.len() ==> s@[i + k] != pat@[k as int],
{
    let mut k: usize = 0;
    while k < pat.len()
        invariant
            i + pat.len() <= s.len(),
            k <= pat@.len(),
            forall|m: int| 0 <= m < k ==> s@[i + m] == pat@[m],
        decreases pat.len() - k,
    {
        if s[i + k] != pat[k] {
            return k;
        }
        k = k + 1;
    }
    k
}

/// Finds the first occurrence of `pat` in `s`.
pub fn find_text(s: &Vec<char>, pat: &Vec<char>) -> (r: Option<usize>)
    ensures
        r is None <==> index_of_text(s@, pat@) is None,
        r matches Some(i) ==> index_of_text(s@, pat@) == Some(i as nat),
{
    if pat.len() > s.len() {
        proof {
            lemma_index_of_text(s@, pat@, 0);
        }
        return None;
    }
    if pat.len() == 0 {
        proof {
            assert(s@.subrange(0, 0) =~= pat@);
            lemma_index_of_text(s@, pat@, 0);
        }
        return Some(0);
    }
    let last = s.len() - pat.len();
    let mut i: usize = 0;
    while i <= last
        invariant
            last == s.len() - pat.len(),
            pat@.len() > 0,
            i <= last + 1,
            forall|j: int| 0 <= j < i ==> !#[trigger] occurs_at(s@, pat@, j),
        decreases last + 1 - i,
    {
        let k = common_prefix(s, pat, i);
        if k == pat.len() {
            proof {
                assert(s@.subrange(i as int, i + pat@.len()) =~= pat@);
                lemma_index_of_text(s@, pat@, i as int);
            }
            return Some(i);
        }
        proof {
            assert(s@.subrange(i as int, i + pat@.len())[k as int] != pat@[k as int]);
        }
        i = i + 1;
    }
    proof {
        lemma_index_of_text(s@, pat@, i as int);
    }
    None
}

} // verus!

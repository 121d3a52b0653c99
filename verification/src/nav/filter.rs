//! Sorting and filtering for file entries.

use vstd::prelude::*;
use crate::fs::entry::{clone_entries, FileEntry, FileEntryView};
use crate::fuzzy::{skim_fuzzy_indices, skim_indices};
use crate::sort::{
    desc_order, is_stable_sort_by, lemma_filter_all, lemma_filter_step, lemma_stable_sort_by_keys,
    lemma_stable_sort_map, seq_filter, stable_sort, DescKey, SortKey,
};
use crate::text::{
    chars_of, chars_order, lemma_seq_order_antisym, lemma_seq_order_eq, lemma_seq_order_trans,
    path_extension, seq_order, std_extension, std_lowercase, str_eq, to_lowercase,
};

verus! {

/// The field by which entries are compared.
#[derive(Debug, Clone, Copy, PartialEq, Eq, Structural)]
pub enum SortField {
    /// Sort alphabetically by name (case-insensitive).
    Name,
    /// Sort by file size in bytes.
    Size,
    /// Sort by last-modified time.
    Date,
    /// Sort by file extension (case-insensitive).
    Type,
}

/// Sort order.
#[derive(Debug, Clone, Copy, PartialEq, Eq, Structural)]
pub enum SortDirection {
    /// Smallest / earliest / A–Z first.
    Ascending,
    /// Largest / latest / Z–A first.
    Descending,
}

/// Three-way order of integers: `-1`, `0` or `1`.
pub open spec fn int_order(a: int, b: int) -> int {
    if a < b {
        -1
    } else if a > b {
        1
    } else {
        0
    }
}

/// Order of optional timestamps: a missing time sorts before any time.
pub open spec fn time_order(a: Option<i128>, b: Option<i128>) -> int {
    match (a, b) {
        (None, None) => 0,
        (None, Some(_)) => -1,
        (Some(_), None) => 1,
        (Some(x), Some(y)) => int_order(x as int, y as int),
    }
}

/// Lower-cased extension of a path, or the empty text when it has none.
pub open spec fn ext_lower(path: Seq<char>) -> Seq<char> {
    match std_extension(path) {
        Some(e) => std_lowercase(e),
        None => Seq::empty(),
    }
}

/// How two entries compare on one sort field.
pub open spec fn field_order(a: FileEntryView, b: FileEntryView, field: SortField) -> int {
    match field {
        SortField::Name => seq_order(std_lowercase(a.name), std_lowercase(b.name)),
        SortField::Size => int_order(a.size as int, b.size as int),
        SortField::Date => time_order(a.modified, b.modified),
        SortField::Type => seq_order(ext_lower(a.path), ext_lower(b.path)),
    }
}

/// How two entries compare for `sort_entries`: directories first when asked,
/// then the field, reversed for a descending sort.
pub open spec fn entry_order(
    a: FileEntryView,
    b: FileEntryView,
    field: SortField,
    direction: SortDirection,
    dirs_first: bool,
) -> int {
    if dirs_first && a.is_dir != b.is_dir {
        if a.is_dir {
            -1
        } else {
            1
        }
    } else {
        let o = field_order(a, b, field);
        match direction {
            SortDirection::Ascending => o,
            SortDirection::Descending => -o,
        }
    }
}

/// The field-specific part of an [`EntryKey`].
pub enum KeyPart {
    Text(Vec<char>),
    Size(u64),
    Time(Option<i128>),
}

/// Order of key parts of the same kind; kinds themselves are ranked
/// text < size < time so that the order stays total.
pub open spec fn part_order(a: KeyPart, b: KeyPart) -> int {
    match (a, b) {
        (KeyPart::Text(x), KeyPart::Text(y)) => seq_order(x@, y@),
        (KeyPart::Size(x), KeyPart::Size(y)) => int_order(x as int, y as int),
        (KeyPart::Time(x), KeyPart::Time(y)) => time_order(x, y),
        (KeyPart::Text(_), _) => -1,
        (_, KeyPart::Text(_)) => 1,
        (KeyPart::Size(_), _) => -1,
        (_, KeyPart::Size(_)) => 1,
    }
}

/// Precomputed sort key of one entry.
pub struct EntryKey {
    pub rank: u8,
    pub part: KeyPart,
    pub descending: bool,
}

proof fn lemma_part_order(a: KeyPart, b: KeyPart)
    ensures
        part_order(a, b) == -part_order(b, a),
        -1 <= part_order(a, b) <= 1,
{
    if let (KeyPart::Text(x), KeyPart::Text(y)) = (a, b) {
        lemma_seq_order_antisym(x@, y@);
        lemma_seq_order_eq(x@, y@);
    }
}

proof fn lemma_part_trans(a: KeyPart, b: KeyPart, c: KeyPart)
    requires
        part_order(a, b) <= 0,
        part_order(b, c) <= 0,
    ensures
        part_order(a, c) <= 0,
        part_order(a, b) < 0 || part_order(b, c) < 0 ==> part_order(a, c) < 0,
{
    if let (KeyPart::Text(x), KeyPart::Text(y), KeyPart::Text(z)) = (a, b, c) {
        lemma_seq_order_trans(x@, y@, z@);
    }
}

impl SortKey for EntryKey {
    open spec fn key_order(self, other: Self) -> int {
        if self.rank != other.rank {
            int_order(self.rank as int, other.rank as int)
        } else if self.descending != other.descending {
            if other.descending {
                -1
            } else {
                1
            }
        } else if self.descending {
            -part_order(self.part, other.part)
        } else {
            part_order(self.part, other.part)
        }
    }

    proof fn lemma_key_order_antisym(a: Self, b: Self) {
        lemma_part_order(a.part, b.part);
    }

    proof fn lemma_key_order_trans(a: Self, b: Self, c: Self) {
        lemma_part_order(a.part, b.part);
        lemma_part_order(b.part, c.part);
        lemma_part_order(a.part, c.part);
        if a.rank == b.rank && b.rank == c.rank && a.descending == b.descending && b.descending
            == c.descending {
            if a.descending {
                lemma_part_trans(c.part, b.part, a.part);
            } else {
                lemma_part_trans(a.part, b.part, c.part);
            }
        }
    }

    fn compare_keys(&self, other: &Self) -> (r: i8) {
        if self.rank != other.rank {
            if self.rank < other.rank {
                -1
            } else {
                1
            }
        } else if self.descending != other.descending {
            if other.descending {
                -1
            } else {
                1
            }
        } else {
            let o = compare_parts(&self.part, &other.part);
            proof {
                lemma_part_order(self.part, other.part);
            }
            if self.descending {
                -o
            } else {
                o
            }
        }
    }
}

fn compare_parts(a: &KeyPart, b: &KeyPart) -> (r: i8)
    ensures
        r as int == part_order(*a, *b),
{
    proof {
        lemma_part_order(*a, *b);
    }
    match (a, b) {
        (KeyPart::Text(x), KeyPart::Text(y)) => chars_order(x.as_slice(), y.as_slice()),
        (KeyPart::Size(x), KeyPart::Size(y)) => {
            if *x < *y {
                -1
            } else if *x > *y {
                1
            } else {
                0
            }
        },
        (KeyPart::Time(x), KeyPart::Time(y)) => compare_times(*x, *y),
        (KeyPart::Text(_), _) => -1,
        (_, KeyPart::Text(_)) => 1,
        (KeyPart::Size(_), _) => -1,
        (_, KeyPart::Size(_)) => 1,
    }
}

fn compare_times(a: Option<i128>, b: Option<i128>) -> (r: i8)
    ensures
        r as int == time_order(a, b),
{
    match (a, b) {
        (None, None) => 0,
        (None, Some(_)) => -1,
        (Some(_), None) => 1,
        (Some(x), Some(y)) => {
            if x < y {
                -1
            } else if x > y {
                1
            } else {
                0
            }
        },
    }
}

/// The lower-cased extension of an entry's path, or the empty string when
/// the path has no extension.
pub fn extension_lower(entry: &FileEntry) -> (r: String)
    ensures
        r@ == ext_lower(entry@.path),
{
    match path_extension(entry.path()) {
        Some(e) => to_lowercase(e.as_str()),
        None => String::new(),
    }
}

/// The text or value that `field` compares.
fn field_part(e: &FileEntry, field: SortField) -> (k: KeyPart)
    ensures
        field == SortField::Name ==> (k matches KeyPart::Text(t) && t@ == std_lowercase(e@.name)),
        field == SortField::Type ==> (k matches KeyPart::Text(t) && t@ == ext_lower(e@.path)),
        field == SortField::Size ==> k == KeyPart::Size(e@.size),
        field == SortField::Date ==> k == KeyPart::Time(e@.modified),
{
    match field {
        SortField::Name => {
            let l = to_lowercase(e.name());
            KeyPart::Text(chars_of(l.as_str()))
        },
        SortField::Size => KeyPart::Size(e.size()),
        SortField::Date => KeyPart::Time(e.modified()),
        SortField::Type => {
            let l = extension_lower(e);
            KeyPart::Text(chars_of(l.as_str()))
        },
    }
}

/// The key of an entry: its directory rank, field part and direction.
pub open spec fn key_matches(
    k: EntryKey,
    e: FileEntryView,
    field: SortField,
    direction: SortDirection,
    dirs_first: bool,
) -> bool {
    &&& k.rank == (if dirs_first && !e.is_dir { 1u8 } else { 0u8 })
    &&& k.descending == (direction == SortDirection::Descending)
    &&& match field {
        SortField::Name => k.part matches KeyPart::Text(t) && t@ == std_lowercase(e.name),
        SortField::Type => k.part matches KeyPart::Text(t) && t@ == ext_lower(e.path),
        SortField::Size => k.part == KeyPart::Size(e.size),
        SortField::Date => k.part == KeyPart::Time(e.modified),
    }
}

proof fn lemma_key_matches_order(
    ka: EntryKey,
    kb: EntryKey,
    a: FileEntryView,
    b: FileEntryView,
    field: SortField,
    direction: SortDirection,
    dirs_first: bool,
)
    requires
        key_matches(ka, a, field, direction, dirs_first),
        key_matches(kb, b, field, direction, dirs_first),
    ensures
        ka.key_order(kb) == entry_order(a, b, field, direction, dirs_first),
{
}

fn entry_key(e: &FileEntry, field: SortField, direction: SortDirection, dirs_first: bool) -> (k: EntryKey)
    ensures
        key_matches(k, e@, field, direction, dirs_first),
{
    EntryKey {
        rank: if dirs_first && !e.is_dir() { 1 } else { 0 },
        part: field_part(e, field),
        descending: match direction {
            SortDirection::Ascending => false,
            SortDirection::Descending => true,
        },
    }
}

/// Compares two entries on one field: `-1`, `0` or `1` as `a` sorts before,
/// together with, or after `b` in ascending order.
pub fn compare_by_field(a: &FileEntry, b: &FileEntry, field: SortField) -> (r: i8)
    ensures
        r as int == field_order(a@, b@, field),
{
    let ka = field_part(a, field);
    let kb = field_part(b, field);
    compare_parts(&ka, &kb)
}

/// The order that [`sort_entries`] sorts by, as a relation on entries.
pub open spec fn sort_order(field: SortField, direction: SortDirection, dirs_first: bool) -> spec_fn(FileEntry, FileEntry) -> int {
    |a: FileEntry, b: FileEntry| entry_order(a@, b@, field, direction, dirs_first)
}

/// Sorts a list of file entries by the given field and direction.
///
/// When `dirs_first` is `true`, directories always appear before files
/// regardless of the sort field. The sort is stable: entries that compare
/// equal keep their input order. Returns a **new** sorted `Vec<FileEntry>`.
pub fn sort_entries(
    entries: &[FileEntry],
    field: SortField,
    direction: SortDirection,
    dirs_first: bool,
) -> (r: Vec<FileEntry>)
    ensures
        is_stable_sort_by(r@, entries@, sort_order(field, direction, dirs_first)),
{
    let items = clone_entries(entries);
    let mut keys: Vec<EntryKey> = Vec::new();
    for i in 0..entries.len()
        invariant
            keys.len() == i,
            forall|k: int| 0 <= k < i ==> key_matches(#[trigger] keys@[k], entries@[k]@, field, direction, dirs_first),
    {
        keys.push(entry_key(&entries[i], field, direction, dirs_first));
    }
    let ghost kv = keys@;
    let r = stable_sort(items, keys);
    proof {
        assert forall|i: int, j: int|
            0 <= i < entries@.len() && 0 <= j < entries@.len() implies (#[trigger] kv[i]).key_order(
                #[trigger] kv[j],
            ) == sort_order(field, direction, dirs_first)(entries@[i], entries@[j]) by {
            lemma_key_matches_order(kv[i], kv[j], entries@[i]@, entries@[j]@, field, direction, dirs_first);
        }
        lemma_stable_sort_by_keys(r@, entries@, kv, sort_order(field, direction, dirs_first));
    }
    r
}

/// Abstract content of a [`FuzzyMatch`].
pub struct FuzzyMatchView {
    pub entry: FileEntryView,
    pub score: i64,
    pub matched_indices: Seq<usize>,
}

/// A file entry paired with its fuzzy match score and the character
/// positions in the entry name that matched the query.
#[derive(Debug, Clone)]
pub struct FuzzyMatch {
    entry: FileEntry,
    score: i64,
    matched_indices: Vec<usize>,
}

impl View for FuzzyMatch {
    type V = FuzzyMatchView;

    closed spec fn view(&self) -> FuzzyMatchView {
        FuzzyMatchView { entry: self.entry@, score: self.score, matched_indices: self.matched_indices@ }
    }
}

impl FuzzyMatch {
    /// The matching file entry.
    pub fn entry(&self) -> (r: &FileEntry)
        ensures
            r@ == self@.entry,
    {
        &self.entry
    }

    /// Match score — higher values indicate a better match.
    pub fn score(&self) -> (r: i64)
        ensures
            r == self@.score,
    {
        self.score
    }

    /// Character positions in the entry name that matched the query.
    pub fn matched_indices(&self) -> (r: &[usize])
        ensures
            r@ == self@.matched_indices,
    {
        self.matched_indices.as_slice()
    }

    /// A copy of this match.
    pub fn duplicate(&self) -> (r: Self)
        ensures
            r@ == self@,
    {
        let mut ix: Vec<usize> = Vec::new();
        for i in 0..self.matched_indices.len()
            invariant
                ix@ == self.matched_indices@.take(i as int),
        {
            ix.push(self.matched_indices[i]);
            assert(ix@ =~= self.matched_indices@.take(i + 1));
        }
        assert(self.matched_indices@.take(self.matched_indices@.len() as int) =~= self.matched_indices@);
        FuzzyMatch { entry: self.entry.duplicate(), score: self.score, matched_indices: ix }
    }
}

/// The entries that the skim matcher accepts for `query`, each with its
/// score and matched positions, in input order.
pub open spec fn fuzzy_hits(entries: Seq<FileEntryView>, query: Seq<char>) -> Seq<FuzzyMatchView>
    decreases entries.len(),
{
    if entries.len() == 0 {
        Seq::empty()
    } else {
        let rest = fuzzy_hits(entries.drop_last(), query);
        let e = entries.last();
        match skim_indices(e.name, query) {
            Some((score, ix)) => rest.push(FuzzyMatchView { entry: e, score, matched_indices: ix }),
            None => rest,
        }
    }
}

/// Order of fuzzy matches: higher score first.
pub open spec fn score_order() -> spec_fn(FuzzyMatchView, FuzzyMatchView) -> int {
    |a: FuzzyMatchView, b: FuzzyMatchView| desc_order(a.score as int, b.score as int)
}

/// The views of a list of entries.
pub open spec fn entries_view(s: Seq<FileEntry>) -> Seq<FileEntryView> {
    s.map_values(|e: FileEntry| e@)
}

/// Performs fuzzy matching of `query` against each entry's file name.
///
/// Returns the entries that match, sorted by score (highest first); matches
/// with equal scores keep the input order. When `query` is empty every
/// entry matches with a score of `0` and no matched positions.
pub fn fuzzy_filter(entries: &[FileEntry], query: &str) -> (r: Vec<FuzzyMatch>)
    ensures
        is_stable_sort_by(
            r@.map_values(|m: FuzzyMatch| m@),
            fuzzy_hits(entries_view(entries@), query@),
            score_order(),
        ),
{
    let mut items: Vec<FuzzyMatch> = Vec::new();
    let mut keys: Vec<DescKey> = Vec::new();
    let ghost ev = entries_view(entries@);
    for i in 0..entries.len()
        invariant
            ev == entries_view(entries@),
            items.len() == keys.len(),
            items@.map_values(|m: FuzzyMatch| m@) == fuzzy_hits(ev.take(i as int), query@),
            forall|k: int| 0 <= k < keys.len() ==> (#[trigger] keys@[k]).0 == items@[k]@.score,
    {
        let e = &entries[i];
        let hit = skim_fuzzy_indices(e.name(), query);
        proof {
            assert(ev.take(i + 1).drop_last() =~= ev.take(i as int));
            assert(ev.take(i + 1).last() == e@);
        }
        match hit {
            Some(h) => {
                let m = FuzzyMatch { entry: e.duplicate(), score: h.score, matched_indices: h.indices };
                let ghost before = items@;
                items.push(m);
                keys.push(DescKey(h.score as i128));
                proof {
                    assert(items@.map_values(|m: FuzzyMatch| m@) =~= before.map_values(|m: FuzzyMatch| m@).push(m@));
                }
            },
            None => {},
        }
    }
    proof {
        assert(ev.take(entries.len() as int) =~= ev);
    }
    let ghost iv = items@;
    let ghost kv = keys@;
    let r = stable_sort(items, keys);
    proof {
        let ord = |a: FuzzyMatch, b: FuzzyMatch| desc_order(a@.score as int, b@.score as int);
        assert forall|i: int, j: int|
            0 <= i < iv.len() && 0 <= j < iv.len() implies (#[trigger] kv[i]).key_order(
                #[trigger] kv[j],
            ) == ord(iv[i], iv[j]) by {}
        lemma_stable_sort_by_keys(r@, iv, kv, ord);
        lemma_stable_sort_map(r@, iv, ord, |m: FuzzyMatch| m@, score_order());
    }
    r
}

/// Whether an entry passes the extension filter: directories always do,
/// files when their lower-cased extension is one of `exts`.
pub open spec fn passes_extension(e: FileEntry, exts: Seq<Seq<char>>) -> bool {
    e@.is_dir || exts.contains(ext_lower(e@.path))
}

/// Filters entries whose file extension matches any of the given `extensions`.
///
/// Extension comparison is case-insensitive. Directories always pass the
/// filter so they remain navigable. Returns a new `Vec`.
pub fn filter_by_extension(entries: &[FileEntry], extensions: &[&str]) -> (r: Vec<FileEntry>)
    ensures
        r@ == seq_filter(
            entries@,
            |e: FileEntry| passes_extension(e, extensions@.map_values(|x: &str| std_lowercase(x@))),
        ),
{
    let ghost lexts = extensions@.map_values(|x: &str| std_lowercase(x@));
    let mut lower_exts: Vec<String> = Vec::new();
    for i in 0..extensions.len()
        invariant
            lower_exts.len() == i,
            forall|k: int| 0 <= k < i ==> (#[trigger] lower_exts@[k])@ == std_lowercase(extensions@[k]@),
    {
        lower_exts.push(to_lowercase(extensions[i]));
    }
    let ghost f = |e: FileEntry| passes_extension(e, lexts);
    let mut out: Vec<FileEntry> = Vec::new();
    for i in 0..entries.len()
        invariant
            lower_exts.len() == extensions.len(),
            forall|k: int| 0 <= k < lower_exts.len() ==> (#[trigger] lower_exts@[k])@ == lexts[k],
            lexts.len() == extensions.len(),
            f == (|e: FileEntry| passes_extension(e, lexts)),
            out@ == seq_filter(entries@.take(i as int), f),
    {
        let e = &entries[i];
        let keep = if e.is_dir() {
            true
        } else {
            let ext = extension_lower(e);
            let mut found = false;
            let mut j: usize = 0;
            while j < lower_exts.len()
                invariant
                    j <= lower_exts.len(),
                    lower_exts.len() == lexts.len(),
                    forall|k: int| 0 <= k < lower_exts.len() ==> (#[trigger] lower_exts@[k])@ == lexts[k],
                    found == exists|k: int| 0 <= k < j && lexts[k] == ext@,
                decreases lower_exts.len() - j,
            {
                if str_eq(lower_exts[j].as_str(), ext.as_str()) {
                    found = true;
                }
                j = j + 1;
            }
            proof {
                if found {
                    let k = choose|k: int| 0 <= k < j && lexts[k] == ext@;
                    assert(lexts.contains(ext@));
                } else {
                    assert(!lexts.contains(ext@));
                }
            }
            found
        };
        proof {
            lemma_filter_step(entries@, f, i as int);
        }
        if keep {
            out.push(e.duplicate());
        }
    }
    proof {
        assert(entries@.take(entries.len() as int) =~= entries@);
    }
    out
}

/// Filters out hidden entries when `show_hidden` is `false`.
///
/// When `show_hidden` is `true` all entries are returned unchanged.
pub fn filter_hidden(entries: &[FileEntry], show_hidden: bool) -> (r: Vec<FileEntry>)
    ensures
        r@ == if show_hidden {
            entries@
        } else {
            seq_filter(entries@, |e: FileEntry| !e@.is_hidden)
        },
{
    if show_hidden {
        return clone_entries(entries);
    }
    let ghost f = |e: FileEntry| !e@.is_hidden;
    let mut out: Vec<FileEntry> = Vec::new();
    for i in 0..entries.len()
        invariant
            f == (|e: FileEntry| !e@.is_hidden),
            out@ == seq_filter(entries@.take(i as int), f),
    {
        proof {
            lemma_filter_step(entries@, f, i as int);
        }
        if !entries[i].is_hidden() {
            out.push(entries[i].duplicate());
        }
    }
    proof {
        assert(entries@.take(entries.len() as int) =~= entries@);
    }
    out
}

} // verus!

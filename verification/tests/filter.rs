use trefm::fs::entry::FileEntry;
use trefm::nav::filter::{filter_by_extension, filter_hidden, fuzzy_filter, sort_entries, SortDirection, SortField};

fn file(path: &str, size: u64, modified: Option<i128>) -> FileEntry {
    FileEntry::new(path.to_string(), false, size, modified, false)
}

fn dir(path: &str) -> FileEntry {
    FileEntry::new(path.to_string(), true, 0, None, false)
}

fn names(v: &[FileEntry]) -> Vec<String> {
    v.iter().map(|e| e.name().to_string()).collect()
}

#[test]
fn sort_empty_entries() {
    let entries: Vec<FileEntry> = vec![];

    let sorted = sort_entries(&entries, SortField::Name, SortDirection::Ascending, false);

    assert!(sorted.is_empty());
}

#[test]
fn filter_hidden_empty_entries() {
    let entries: Vec<FileEntry> = vec![];

    let filtered = filter_hidden(&entries, false);

    assert!(filtered.is_empty());
}

#[test]
fn sort_by_name_case_insensitive_dirs_first() {
    let entries = vec![
        file("/d/banana.txt", 1, None),
        dir("/d/Zoo"),
        file("/d/Apple.txt", 1, None),
        dir("/d/alpha"),
    ];
    let sorted = sort_entries(&entries, SortField::Name, SortDirection::Ascending, true);
    assert_eq!(names(&sorted), vec!["alpha", "Zoo", "Apple.txt", "banana.txt"]);
    let desc = sort_entries(&entries, SortField::Name, SortDirection::Descending, false);
    assert_eq!(names(&desc), vec!["Zoo", "banana.txt", "Apple.txt", "alpha"]);
}

#[test]
fn sort_by_size_is_stable_for_equal_sizes() {
    let entries = vec![
        file("/d/c", 5, None),
        file("/d/a", 1, None),
        file("/d/b", 5, None),
    ];
    let sorted = sort_entries(&entries, SortField::Size, SortDirection::Ascending, false);
    assert_eq!(names(&sorted), vec!["a", "c", "b"]);
}

#[test]
fn sort_by_date_puts_missing_times_first() {
    let entries = vec![
        file("/d/new", 1, Some(300)),
        file("/d/none", 1, None),
        file("/d/old", 1, Some(100)),
    ];
    let sorted = sort_entries(&entries, SortField::Date, SortDirection::Ascending, false);
    assert_eq!(names(&sorted), vec!["none", "old", "new"]);
}

#[test]
fn sort_by_type_groups_extensions() {
    let entries = vec![
        file("/d/b.txt", 1, None),
        file("/d/a.rs", 1, None),
        file("/d/noext", 1, None),
        file("/d/c.RS", 1, None),
    ];
    let sorted = sort_entries(&entries, SortField::Type, SortDirection::Ascending, false);
    assert_eq!(names(&sorted), vec!["noext", "a.rs", "c.RS", "b.txt"]);
}

#[test]
fn filter_hidden_drops_dot_files() {
    let entries = vec![file("/d/.env", 1, None), file("/d/a", 1, None), dir("/d/.git")];
    assert_eq!(names(&filter_hidden(&entries, false)), vec!["a"]);
    assert_eq!(filter_hidden(&entries, true).len(), 3);
}

#[test]
fn filter_by_extension_keeps_dirs_and_matches_case_insensitively() {
    let entries = vec![
        file("/d/a.RS", 1, None),
        file("/d/b.txt", 1, None),
        dir("/d/src"),
        file("/d/noext", 1, None),
    ];
    let filtered = filter_by_extension(&entries, &["rs"]);
    assert_eq!(names(&filtered), vec!["a.RS", "src"]);
    let none = filter_by_extension(&entries, &[]);
    assert_eq!(names(&none), vec!["src"]);
}

#[test]
fn fuzzy_filter_empty_query_keeps_all_with_zero_score() {
    let entries = vec![file("/d/a.txt", 1, None), file("/d/b.txt", 1, None)];
    let hits = fuzzy_filter(&entries, "");
    assert_eq!(hits.len(), 2);
    assert!(hits.iter().all(|h| h.score() == 0 && h.matched_indices().is_empty()));
}

#[test]
fn fuzzy_filter_ranks_and_drops_non_matches() {
    let entries = vec![
        file("/d/readme.md", 1, None),
        file("/d/zzz", 1, None),
        file("/d/rdm", 1, None),
    ];
    let hits = fuzzy_filter(&entries, "rdm");
    assert!(hits.iter().all(|h| h.entry().name() != "zzz"));
    assert_eq!(hits.len(), 2);
    for w in hits.windows(2) {
        assert!(w[0].score() >= w[1].score());
    }
}

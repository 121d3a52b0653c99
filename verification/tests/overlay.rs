use trefm::fs::duplicates::{CachedDuplicateGroup, CachedFileInfo, DuplicateCache};
use trefm::fs::entry::FileEntry;
use trefm::nav::bookmarks::Bookmarks;
use trefm::nav::filter::{fuzzy_filter, SortDirection, SortField};
use trefm::tui::overlay::{
    bookmark_add_lines, bookmark_list_lines, confirm_lines, duplicate_overlay_lines, help_lines, line_number,
    pager_header, push_window, recent_overlay_lines, rename_lines, search_overlay_lines, sort_popup_lines,
};

fn file(path: &str, modified: Option<i128>) -> FileEntry {
    FileEntry::new(path.to_string(), false, 1, modified, false)
}

#[test]
fn overlay_fixed_popups() {
    let help = help_lines();
    assert_eq!(help.len(), 29);
    assert_eq!(help[0], "j/k      - Move down/up");
    assert_eq!(help[28], "Press Esc or ? to close");
    assert_eq!(confirm_lines(), vec!["Are you sure?", "", "y - Yes, proceed", "n - No, cancel"]);
    assert_eq!(rename_lines("a.txt"), vec!["New name: a.txt_", "", "Enter to confirm, Esc to cancel"]);
    assert_eq!(bookmark_add_lines("w"), vec!["Label: w_", "", "Enter to save, Esc to cancel"]);
}

#[test]
fn overlay_window_marks_cursor_and_counts_rest() {
    let items: Vec<String> = (0..40).map(|i| format!("item{i}")).collect();
    let mut out = Vec::new();
    push_window(&mut out, &items, 20, 15);
    assert_eq!(out[0], "  ... 13 more above");
    assert_eq!(out[1], "  item13");
    assert_eq!(out[8], "> item20");
    assert_eq!(out[15], "  ... 12 more below");
    assert_eq!(out.len(), 17);
}

#[test]
fn overlay_search_lines() {
    let entries = vec![file("/d/alpha.txt", None), file("/d/beta.txt", None)];
    let results = fuzzy_filter(&entries, "zzz");
    let lines = search_overlay_lines("zzz", &results, 0, 2);
    assert_eq!(lines, vec!["/zzz_", "0/2 matches", "", "  No matches found"]);
    let results = fuzzy_filter(&entries, "");
    let lines = search_overlay_lines("", &results, 1, 2);
    assert_eq!(lines[1], "2/2 matches");
    assert_eq!(lines[4], "> beta.txt");
}

#[test]
fn overlay_sort_popup() {
    let lines = sort_popup_lines(2, SortField::Size, SortDirection::Descending);
    assert_eq!(
        lines,
        vec!["  Name", "  Size  \u{2193}", "> Date", "  Type", "", "Enter: select | a: asc | d: desc | Esc: cancel"]
    );
}

#[test]
fn overlay_recent_files() {
    let now: i128 = 10_000 * 1_000_000_000;
    let results = vec![
        file("/home/u/src/a.rs", Some(now - 90 * 1_000_000_000)),
        file("/other/b.rs", None),
        file("/home/u/c.rs", Some(now + 5)),
    ];
    let lines = recent_overlay_lines(&results, 1, "/home/u", now);
    assert_eq!(
        lines,
        vec![
            "3 file(s) found",
            "",
            "  src/a.rs  1m ago",
            "> /other/b.rs  unknown",
            "  c.rs  just now",
            "",
            "Enter: jump | j/k: navigate | Esc: close"
        ]
    );
    let empty = recent_overlay_lines(&[], 0, "/", now);
    assert_eq!(empty[2], "  No recently changed files found");
}

#[test]
fn overlay_bookmark_list() {
    let empty = bookmark_list_lines(&Bookmarks::new(), 0);
    assert_eq!(empty[0], "No bookmarks yet");
    let b = Bookmarks::new().with_bookmark("work".to_string(), "/w".to_string()).with_bookmark("docs".to_string(), "/d".to_string());
    let lines = bookmark_list_lines(&b, 1);
    assert_eq!(lines, vec!["  docs  /d", "> work  /w", "", "Enter: jump | d: delete | Esc: close"]);
}

#[test]
fn overlay_pager_header_and_numbers() {
    assert_eq!(
        pager_header(Some("/tmp/notes.md"), 4, 120),
        " notes.md \u{2014} line 5/120  (q: close, j/k: scroll, d/u: half page, gg/G: top/bottom)"
    );
    assert!(pager_header(None, 0, 0).starts_with(" unknown \u{2014} line 1/0"));
    assert_eq!(line_number(7, 50), "  7 ");
    assert_eq!(line_number(7, 12345), "    7 ");
    assert_eq!(line_number(1234, 5), "1234 ");
}

#[test]
fn overlay_duplicates() {
    let cache = DuplicateCache {
        groups: vec![CachedDuplicateGroup {
            size: 2048,
            hash: "h".to_string(),
            files: vec![
                CachedFileInfo { path: "/home/u/a.bin".to_string(), name: "a.bin".to_string(), size: 2048 },
                CachedFileInfo { path: "/srv/b.bin".to_string(), name: "b.bin".to_string(), size: 2048 },
            ],
        }],
        scanned_at: Some("epoch+1d 00:00:00 UTC".to_string()),
        scan_root: None,
    };
    let lines = duplicate_overlay_lines(&cache, 1, "/home/u", false);
    assert_eq!(
        lines,
        vec![
            "1 group(s), 2 total files, 2.0 KB wasted (Last: epoch+1d 00:00:00 UTC)",
            "",
            "\u{2500}\u{2500} 2.0 KB (2 files) \u{2500}\u{2500}",
            "  ~/a.bin",
            "> /srv/b.bin",
            "",
            "Enter: jump | d: delete | j/k: navigate | Esc: close"
        ]
    );
    let empty = DuplicateCache { groups: vec![], scanned_at: None, scan_root: None };
    let lines = duplicate_overlay_lines(&empty, 0, "", true);
    assert_eq!(lines[0], "0 group(s), 0 total files, 0 B wasted (Scanning...)");
    assert_eq!(lines[2], "  No duplicate files found");
}

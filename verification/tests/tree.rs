use trefm::config::theme::{Theme, ThemeColor};
use trefm::fs::preview::TreeEntry;
use trefm::error::CoreError;
use trefm::fs::tree::{read_directory_tree, sort_tree_children, TreeChild, TreeWalk};
use trefm::tui::tree_view::{directory_preview_lines, last_segment, tree_icon};

/// Reads a tree held in memory: each directory path with its children.
fn walk(root: &str, dirs: &[(&str, &[(&str, bool)])], max_depth: usize, max_entries: usize) -> Vec<TreeEntry> {
    read_directory_tree(root, true, max_depth, max_entries, |dir: String| {
        Ok(dirs
            .iter()
            .find(|(p, _)| *p == dir)
            .map(|(_, cs)| cs.iter().map(|(n, d)| TreeChild { name: n.to_string(), is_dir: *d }).collect::<Vec<_>>())
            .unwrap_or_default())
    })
    .unwrap()
}

fn names(entries: &[TreeEntry]) -> Vec<(String, bool, usize)> {
    entries.iter().map(|e| (e.name.clone(), e.is_dir, e.depth)).collect()
}

#[test]
fn read_directory_tree_simple() {
    let entries = walk(
        "/t",
        &[("/t", &[("file1.txt", false), ("file2.txt", false), ("subdir", true)]), ("/t/subdir", &[])],
        1,
        100,
    );
    assert!(!entries.is_empty());
    let first_dir = entries.iter().find(|e| e.is_dir);
    assert!(first_dir.is_some());
    assert_eq!(first_dir.unwrap().name, "subdir");
    assert_eq!(first_dir.unwrap().depth, 0);
}

#[test]
fn read_directory_tree_nested_dirs() {
    let entries = walk(
        "/t",
        &[("/t", &[("a", true)]), ("/t/a", &[("b", true)]), ("/t/a/b", &[("deep.txt", false)])],
        3,
        100,
    );
    let a = entries.iter().find(|e| e.name == "a").unwrap();
    assert_eq!(a.depth, 0);
    assert!(a.is_dir);
    let b = entries.iter().find(|e| e.name == "b").unwrap();
    assert_eq!(b.depth, 1);
    assert!(b.is_dir);
    let deep = entries.iter().find(|e| e.name == "deep.txt").unwrap();
    assert_eq!(deep.depth, 2);
    assert!(!deep.is_dir);
}

#[test]
fn read_directory_tree_respects_max_depth() {
    let entries = walk(
        "/t",
        &[
            ("/t", &[("a", true)]),
            ("/t/a", &[("b", true)]),
            ("/t/a/b", &[("c", true)]),
            ("/t/a/b/c", &[("deep.txt", false)]),
        ],
        1,
        100,
    );
    for entry in &entries {
        assert!(entry.depth <= 1, "entry {} at depth {} exceeds max_depth 1", entry.name, entry.depth);
    }
    assert!(entries.iter().all(|e| e.name != "c"));
}

#[test]
fn read_directory_tree_respects_max_entries() {
    let files: Vec<String> = (0..20).map(|i| format!("file{i:02}.txt")).collect();
    let children: Vec<(&str, bool)> = files.iter().map(|f| (f.as_str(), false)).collect();
    let entries = walk("/t", &[("/t", &children)], 0, 5);
    assert!(entries.len() <= 5);
    assert_eq!(entries.len(), 5);
    assert_eq!(entries[4].name, "file04.txt");
}

#[test]
fn read_directory_tree_empty_dir() {
    let entries = walk("/t", &[("/t", &[])], 3, 100);
    assert!(entries.is_empty());
}

#[test]
fn read_directory_tree_sorts_dirs_first_then_alpha() {
    let entries = walk(
        "/t",
        &[("/t", &[("banana.txt", false), ("apple.txt", false), ("cherry_dir", true), ("alpha_dir", true)])],
        0,
        100,
    );
    assert!(entries[0].is_dir);
    assert_eq!(entries[0].name, "alpha_dir");
    assert!(entries[1].is_dir);
    assert_eq!(entries[1].name, "cherry_dir");
    assert!(!entries[2].is_dir);
    assert_eq!(entries[2].name, "apple.txt");
    assert!(!entries[3].is_dir);
    assert_eq!(entries[3].name, "banana.txt");
}

#[test]
fn read_directory_tree_max_depth_zero_only_direct_children() {
    let entries = walk(
        "/t",
        &[("/t", &[("subdir", true), ("top.txt", false)]), ("/t/subdir", &[("nested.txt", false)])],
        0,
        100,
    );
    for entry in &entries {
        assert_eq!(entry.depth, 0);
    }
    assert!(entries.iter().any(|e| e.name == "subdir"));
    assert!(entries.iter().any(|e| e.name == "top.txt"));
    assert!(!entries.iter().any(|e| e.name == "nested.txt"));
}

#[test]
fn read_directory_tree_unicode_filenames() {
    let entries = walk("/t", &[("/t", &[("한글파일.txt", false), ("디렉토리", true)]), ("/t/디렉토리", &[])], 0, 100);
    let names: Vec<&str> = entries.iter().map(|e| e.name.as_str()).collect();
    assert!(names.contains(&"한글파일.txt"));
    assert!(names.contains(&"디렉토리"));
}

#[test]
fn tree_walk_names_in_nfc() {
    let entries = walk("/t", &[("/t", &[("e\u{301}t\u{e9}", false)])], 0, 100);
    assert_eq!(entries[0].name, "\u{e9}t\u{e9}");
}

#[test]
fn tree_walk_depth_first_order() {
    let entries = walk(
        "/t",
        &[
            ("/t", &[("z.txt", false), ("b", true), ("a", true)]),
            ("/t/a", &[("x.txt", false), ("inner", true)]),
            ("/t/a/inner", &[("deep.txt", false)]),
            ("/t/b", &[("y.txt", false)]),
        ],
        5,
        100,
    );
    assert_eq!(
        names(&entries),
        vec![
            ("a".to_string(), true, 0),
            ("inner".to_string(), true, 1),
            ("deep.txt".to_string(), false, 2),
            ("x.txt".to_string(), false, 1),
            ("b".to_string(), true, 0),
            ("y.txt".to_string(), false, 1),
            ("z.txt".to_string(), false, 0),
        ]
    );
}

#[test]
fn tree_walk_stops_at_entry_limit_inside_subdirectory() {
    let entries = walk(
        "/t",
        &[("/t", &[("a", true), ("b", true)]), ("/t/a", &[("one", false), ("two", false)]), ("/t/b", &[("three", false)])],
        3,
        2,
    );
    assert_eq!(names(&entries), vec![("a".to_string(), true, 0), ("one".to_string(), false, 1)]);
}

#[test]
fn tree_walk_does_not_list_directory_when_full() {
    let mut w = TreeWalk::new("/t".to_string(), 3, 1);
    assert_eq!(w.next_dir(), Some("/t".to_string()));
    w.listed(vec![TreeChild { name: "d".to_string(), is_dir: true }]);
    // the one entry is taken: the child directory is not listed
    assert_eq!(w.next_dir(), None);
    assert_eq!(w.entries().len(), 1);
}

#[test]
fn tree_walk_zero_entries_lists_nothing() {
    let w = TreeWalk::new("/t".to_string(), 3, 0);
    assert_eq!(w.next_dir(), None);
    assert!(w.entries().is_empty());
}

#[test]
fn sort_tree_children_dirs_first() {
    let cs = vec![
        TreeChild { name: "b".to_string(), is_dir: false },
        TreeChild { name: "c".to_string(), is_dir: true },
        TreeChild { name: "a".to_string(), is_dir: false },
        TreeChild { name: "B".to_string(), is_dir: true },
    ];
    let sorted: Vec<String> = sort_tree_children(cs).into_iter().map(|c| c.name).collect();
    assert_eq!(sorted, vec!["B", "c", "a", "b"]);
}

#[test]
fn last_segment_cases() {
    assert_eq!(last_segment("archive.tar.gz", '.'), "gz");
    assert_eq!(last_segment("Makefile", '.'), "Makefile");
    assert_eq!(last_segment("trailing.", '.'), "");
}

#[test]
fn tree_icon_cases() {
    assert_eq!(tree_icon("main.RS"), "\u{e7a8} ");
    assert_eq!(tree_icon("config.yml"), "\u{e6a8} ");
    assert_eq!(tree_icon("notes"), "\u{f15b} ");
}

#[test]
fn directory_preview_lists_tree() {
    let theme = Theme::default();
    let tree = Ok(vec![
        TreeEntry { name: "src".to_string(), is_dir: true, depth: 0 },
        TreeEntry { name: "lib.rs".to_string(), is_dir: false, depth: 1 },
    ]);
    let lines = directory_preview_lines("/home/user/project", &tree, false, &theme);
    let texts: Vec<&str> = lines.iter().map(|l| l.text.as_str()).collect();
    assert_eq!(texts, vec!["Directory: project", "", "  /src", "     lib.rs"]);
    assert_eq!(lines[0].style.fg, Some(ThemeColor::Blue));
    assert!(lines[0].style.bold);
    assert_eq!(lines[3].style.fg, Some(ThemeColor::White));
}

#[test]
fn directory_preview_with_icons() {
    let theme = Theme::default();
    let tree = Ok(vec![TreeEntry { name: "lib.rs".to_string(), is_dir: false, depth: 0 }]);
    let lines = directory_preview_lines("/p", &tree, true, &theme);
    assert_eq!(lines[2].text, "  \u{e7a8} lib.rs");
}

#[test]
fn directory_preview_empty() {
    let theme = Theme::default();
    let lines = directory_preview_lines("/p/empty", &Ok(vec![]), true, &theme);
    assert_eq!(lines.len(), 3);
    assert_eq!(lines[2].text, "  (empty directory)");
    assert_eq!(lines[2].style.fg, Some(ThemeColor::DarkGray));
}

#[test]
fn directory_preview_permission_error_has_hint() {
    let theme = Theme::default();
    let lines = directory_preview_lines("/p/secret", &Err("Permission denied (os error 13)".to_string()), true, &theme);
    let texts: Vec<&str> = lines.iter().map(|l| l.text.as_str()).collect();
    assert_eq!(
        texts,
        vec![
            "Directory: secret",
            "",
            "  (unable to read directory: Permission denied (os error 13))",
            "  Hint: grant terminal Full Disk Access in",
            "    System Settings \u{2192} Privacy & Security",
        ]
    );
    assert_eq!(lines[2].style.fg, Some(ThemeColor::Red));
    assert!(lines[3].style.italic);
    assert_eq!(lines[3].style.fg, Some(ThemeColor::Yellow));
}

#[test]
fn directory_preview_other_error_has_no_hint() {
    let theme = Theme::default();
    let lines = directory_preview_lines("/p/x", &Err("not a directory: /p/x".to_string()), true, &theme);
    assert_eq!(lines.len(), 3);
}

#[test]
fn read_directory_tree_not_a_directory_returns_error() {
    let result = read_directory_tree("/t/file.txt", false, 1, 100, |_d: String| Ok(vec![]));
    assert!(result.is_err());
    assert!(matches!(result, Err(CoreError::NotADirectory(p)) if p == "/t/file.txt"));
}

#[test]
fn read_directory_tree_listing_error_ends_walk() {
    let result = read_directory_tree("/t", true, 3, 100, |d: String| {
        if d == "/t" {
            Ok(vec![TreeChild { name: "locked".to_string(), is_dir: true }])
        } else {
            Err(CoreError::PermissionDenied(d))
        }
    });
    assert!(matches!(result, Err(CoreError::PermissionDenied(p)) if p == "/t/locked"));
}

#[test]
fn tree_walk_step_by_step() {
    let mut w = TreeWalk::new("/t".to_string(), 1, 10);
    assert_eq!(w.next_dir(), Some("/t".to_string()));
    w.listed(vec![TreeChild { name: "f".to_string(), is_dir: false }, TreeChild { name: "d".to_string(), is_dir: true }]);
    // the directory comes first and is entered
    assert_eq!(w.next_dir(), Some("/t/d".to_string()));
    assert_eq!(names(&w.entries()), vec![("d".to_string(), true, 0)]);
    w.listed(vec![TreeChild { name: "g".to_string(), is_dir: true }]);
    // depth 1 is the limit: "g" is listed as an entry but not entered
    assert_eq!(w.next_dir(), None);
    assert_eq!(
        names(&w.entries()),
        vec![("d".to_string(), true, 0), ("g".to_string(), true, 1), ("f".to_string(), false, 0)]
    );
}

#[test]
fn read_directory_tree_lists_preorder_directories_first() {
    let entries = walk(
        "/t",
        &[
            ("/t", &[("zeta.txt", false), ("beta", true), ("alpha.txt", false), ("alpha", true)]),
            ("/t/alpha", &[("inner.txt", false)]),
            ("/t/beta", &[]),
        ],
        2,
        100,
    );
    assert_eq!(
        names(&entries),
        vec![
            ("alpha".to_string(), true, 0),
            ("inner.txt".to_string(), false, 1),
            ("beta".to_string(), true, 0),
            ("alpha.txt".to_string(), false, 0),
            ("zeta.txt".to_string(), false, 0),
        ]
    );
}

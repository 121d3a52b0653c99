use trefm::error::CoreError;
use trefm::fs::entry::FileEntry;
use trefm::fs::ops::{
    content_digest, find_duplicate_files, find_duplicate_files_with_exclusions, find_recent_files, group_duplicates, hash_candidates, is_valid_filename,
    walk_step, PathProbe, WalkStep,
};

const MISSING: PathProbe = PathProbe { exists: false, is_dir: false };
const A_FILE: PathProbe = PathProbe { exists: true, is_dir: false };
const A_DIR: PathProbe = PathProbe { exists: true, is_dir: true };

fn file(path: &str, size: u64, modified: Option<i128>) -> FileEntry {
    FileEntry::new(path.to_string(), false, size, modified, false)
}

#[test]
fn find_recent_files_nonexistent_returns_not_found() {
    let result = find_recent_files("/nonexistent/path", MISSING, Vec::new(), 50);
    assert!(matches!(result.unwrap_err(), CoreError::NotFound(_)));
}

#[test]
fn find_duplicate_files_nonexistent_returns_not_found() {
    let result = find_duplicate_files("/nonexistent/path", MISSING, Vec::new(), Vec::new());
    assert!(matches!(result.unwrap_err(), CoreError::NotFound(_)));
}

#[test]
fn exclusions_nonexistent_returns_not_found() {
    let result = find_duplicate_files("/nonexistent/path", MISSING, Vec::new(), Vec::new());
    assert!(matches!(result.unwrap_err(), CoreError::NotFound(_)));
}

#[test]
fn root_that_is_a_file_is_not_a_directory() {
    let r = find_recent_files("/etc/passwd", A_FILE, Vec::new(), 5);
    assert!(matches!(r.unwrap_err(), CoreError::NotADirectory(p) if p == "/etc/passwd"));
}

#[test]
fn recent_files_newest_first_and_truncated() {
    let files = vec![
        file("/d/old", 1, Some(100)),
        file("/d/none", 1, None),
        file("/d/new", 1, Some(300)),
        file("/d/mid", 1, Some(200)),
        file("/d/mid2", 1, Some(200)),
    ];
    let r = find_recent_files("/d", A_DIR, files, 4).unwrap();
    let names: Vec<&str> = r.iter().map(|e| e.name()).collect();
    assert_eq!(names, vec!["new", "mid", "mid2", "old"]);
    let all = find_recent_files("/d", A_DIR, vec![file("/d/x", 1, Some(-5)), file("/d/y", 1, None)], 10).unwrap();
    let names: Vec<&str> = all.iter().map(|e| e.name()).collect();
    assert_eq!(names, vec!["y", "x"]);
}

#[test]
fn walk_steps() {
    assert_eq!(walk_step(".git", true, 3, false, &[]), WalkStep::Skip);
    assert_eq!(walk_step(".git", true, 3, true, &[]), WalkStep::Descend(2));
    assert_eq!(walk_step("node_modules", true, 3, true, &["node_modules"]), WalkStep::Skip);
    assert_eq!(walk_step("src", true, 0, false, &[]), WalkStep::Skip);
    assert_eq!(walk_step("a.txt", false, 0, false, &["a.txt"]), WalkStep::Collect);
}

#[test]
fn valid_filenames() {
    assert!(is_valid_filename("report.txt"));
    assert!(is_valid_filename("..."));
    assert!(!is_valid_filename(""));
    assert!(!is_valid_filename("."));
    assert!(!is_valid_filename(".."));
    assert!(!is_valid_filename("a/b"));
    assert!(!is_valid_filename("a\0b"));
}

#[test]
fn hash_candidates_share_a_size() {
    let files = vec![file("/a", 5, None), file("/b", 7, None), file("/c", 5, None), file("/d", 200_000_000, None), file("/e", 200_000_000, None)];
    assert_eq!(hash_candidates(&files), vec![true, false, true, false, false]);
}

#[test]
fn digest_is_sha256_hex() {
    assert_eq!(content_digest(b""), "e3b0c44298fc1c149afbf4c8996fb92427ae41e4649b934ca495991b7852b855");
    assert_eq!(content_digest(b"abc"), "ba7816bf8f01cfea414140de5dae2223b00361a396177a9cb410ff61f20015ad");
}

#[test]
fn duplicates_grouped_by_size_and_digest_largest_first() {
    let files = vec![
        file("/s1", 3, None),
        file("/b1", 10, None),
        file("/s2", 3, None),
        file("/b2", 10, None),
        file("/b3", 10, None),
        file("/lone", 10, None),
    ];
    let d = |s: &str| Some(s.to_string());
    let digests = vec![d("x"), d("y"), d("x"), d("y"), None, d("z")];
    let groups = group_duplicates(&files, &digests);
    assert_eq!(groups.len(), 2);
    assert_eq!(groups[0].size, 10);
    assert_eq!(groups[0].hash, "y");
    let names: Vec<&str> = groups[0].files.iter().map(|e| e.name()).collect();
    assert_eq!(names, vec!["b1", "b2"]);
    assert_eq!(groups[1].size, 3);
    assert_eq!(groups[1].files.len(), 2);
    let ok = find_duplicate_files("/", A_DIR, files, digests).unwrap();
    assert_eq!(ok.len(), 2);
}

fn tree_listing(dir: &str) -> Vec<FileEntry> {
    let f = |p: &str, size: u64| FileEntry::new(p.to_string(), false, size, None, false);
    let d = |p: &str| FileEntry::new(p.to_string(), true, 0, None, false);
    match dir {
        "/scan" => vec![f("/scan/a.txt", 5), d("/scan/node_modules"), d("/scan/sub"), f("/scan/.hidden", 5)],
        "/scan/node_modules" => vec![f("/scan/node_modules/copy.txt", 5)],
        "/scan/sub" => vec![f("/scan/sub/b.txt", 5), f("/scan/sub/c.txt", 7)],
        _ => Vec::new(),
    }
}

fn tree_digest(path: &str) -> Option<String> {
    if path.ends_with("c.txt") { Some("other".to_string()) } else { Some("same".to_string()) }
}

#[test]
fn find_duplicate_files_with_exclusions_skips_excluded_dirs() {
    let groups = find_duplicate_files_with_exclusions(
        "/scan",
        A_DIR,
        5,
        false,
        &["node_modules"],
        |dir: String| tree_listing(&dir),
        |file: String| tree_digest(&file),
    )
    .unwrap();
    assert_eq!(groups.len(), 1);
    let paths: Vec<&str> = groups[0].files.iter().map(|e| e.path()).collect();
    assert_eq!(paths, vec!["/scan/a.txt", "/scan/sub/b.txt"]);
}

#[test]
fn find_duplicate_files_with_exclusions_without_exclusions_finds_more() {
    let groups = find_duplicate_files_with_exclusions(
        "/scan",
        A_DIR,
        5,
        true,
        &[],
        |dir: String| tree_listing(&dir),
        |file: String| tree_digest(&file),
    )
    .unwrap();
    assert_eq!(groups.len(), 1);
    assert_eq!(groups[0].files.len(), 4);
}

#[test]
fn find_duplicate_files_with_exclusions_depth_zero_stays_at_root() {
    let groups = find_duplicate_files_with_exclusions(
        "/scan",
        A_DIR,
        0,
        true,
        &[],
        |dir: String| tree_listing(&dir),
        |file: String| tree_digest(&file),
    )
    .unwrap();
    assert_eq!(groups.len(), 1);
    let paths: Vec<&str> = groups[0].files.iter().map(|e| e.path()).collect();
    assert_eq!(paths, vec!["/scan/a.txt", "/scan/.hidden"]);
}

#[test]
fn find_duplicate_files_with_exclusions_errors_on_missing_root() {
    let r = find_duplicate_files_with_exclusions(
        "/nope",
        MISSING,
        5,
        true,
        &[],
        |dir: String| tree_listing(&dir),
        |file: String| tree_digest(&file),
    );
    assert!(matches!(r, Err(CoreError::NotFound(_))));
}

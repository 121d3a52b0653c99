use trefm::fs::duplicates::{format_scan_time, CachedDuplicateGroup, CachedFileInfo, DuplicateCache};
use trefm::fs::entry::FileEntry;
use trefm::fs::ops::DuplicateGroup;

fn info(path: &str, name: &str, size: u64) -> CachedFileInfo {
    CachedFileInfo { path: path.to_string(), name: name.to_string(), size }
}

fn sample_cache() -> DuplicateCache {
    DuplicateCache {
        groups: vec![
            CachedDuplicateGroup {
                size: 1024,
                hash: "abc123".to_string(),
                files: vec![
                    info("/tmp/a.txt", "a.txt", 1024),
                    info("/tmp/b.txt", "b.txt", 1024),
                    info("/tmp/c.txt", "c.txt", 1024),
                ],
            },
            CachedDuplicateGroup {
                size: 512,
                hash: "def456".to_string(),
                files: vec![info("/tmp/x.txt", "x.txt", 512), info("/tmp/y.txt", "y.txt", 512)],
            },
        ],
        scanned_at: Some("2024-01-01T00:00:00Z".to_string()),
        scan_root: Some("/tmp".to_string()),
    }
}

#[test]
fn remove_file_removes_entry() {
    let cache = sample_cache();
    let cache = cache.remove_file("/tmp/a.txt");

    assert_eq!(cache.groups.len(), 2);
    assert_eq!(cache.groups[0].files.len(), 2);
    assert!(!cache.groups[0].files.iter().any(|f| f.name == "a.txt"));
}

#[test]
fn remove_file_drops_group_with_one_file() {
    let cache = sample_cache();
    let cache = cache.remove_file("/tmp/x.txt");

    assert_eq!(cache.groups.len(), 1);
    assert_eq!(cache.groups[0].hash, "abc123");
}

#[test]
fn remove_file_nonexistent_path_is_noop() {
    let cache = sample_cache();
    let cache = cache.remove_file("/nonexistent/file.txt");

    assert_eq!(cache.groups.len(), 2);
    assert_eq!(cache.total_files(), 5);
}

#[test]
fn total_files_correct() {
    let cache = sample_cache();
    assert_eq!(cache.total_files(), 5);
}

#[test]
fn total_wasted_correct() {
    let cache = sample_cache();
    assert_eq!(cache.total_wasted(), 2560);
}

#[test]
fn is_empty_on_default() {
    let cache = DuplicateCache::default();
    assert!(cache.is_empty());
    assert_eq!(cache.total_files(), 0);
    assert_eq!(cache.total_wasted(), 0);
}

#[test]
fn is_empty_false_when_has_groups() {
    let cache = sample_cache();
    assert!(!cache.is_empty());
}

#[test]
fn remove_all_files_empties_cache() {
    let cache = DuplicateCache {
        groups: vec![CachedDuplicateGroup {
            size: 100,
            hash: "h".to_string(),
            files: vec![info("/a", "a", 100), info("/b", "b", 100)],
        }],
        scanned_at: None,
        scan_root: None,
    };

    let cache = cache.remove_file("/a");
    assert!(cache.is_empty());
}

#[test]
fn remove_file_compares_paths_by_components() {
    let cache = sample_cache().remove_file("/tmp//a.txt");
    assert_eq!(cache.groups[0].files.len(), 2);
    assert_eq!(cache.scanned_at, Some("2024-01-01T00:00:00Z".to_string()));
    assert_eq!(cache.scan_root, Some("/tmp".to_string()));
}

#[test]
fn retain_alive_keeps_marked_files() {
    let cache = sample_cache().retain_alive(vec![vec![true, false, true], vec![true, false]]);
    assert_eq!(cache.groups.len(), 1);
    assert_eq!(cache.groups[0].files.len(), 2);
    assert_eq!(cache.groups[0].files[1].name, "c.txt");
}

#[test]
fn validate_drops_files_that_are_gone() {
    let cache = sample_cache();
    let validated = cache.validate();
    // None of the sample paths exist on a clean machine except by chance;
    // whatever exists, no group of fewer than two files remains.
    assert!(validated.groups.iter().all(|g| g.files.len() >= 2));
}

#[test]
fn from_groups_copies_paths_names_and_sizes() {
    let groups = vec![DuplicateGroup {
        size: 11,
        hash: "somehash".to_string(),
        files: vec![
            FileEntry::new("/t/a.txt".to_string(), false, 11, None, false),
            FileEntry::new("/t/b.txt".to_string(), false, 11, None, false),
        ],
    }];
    let cache = DuplicateCache::from_groups_at(groups, "now".to_string());
    assert_eq!(cache.groups.len(), 1);
    assert_eq!(cache.groups[0].size, 11);
    assert_eq!(cache.groups[0].hash, "somehash");
    assert_eq!(cache.groups[0].files[0].path, "/t/a.txt");
    assert_eq!(cache.groups[0].files[1].name, "b.txt");
    assert_eq!(cache.scanned_at, Some("now".to_string()));
    let stamped = DuplicateCache::from_scan(Vec::new());
    assert!(stamped.scanned_at.unwrap().starts_with("epoch+"));
}

#[test]
fn scan_time_format() {
    assert_eq!(format_scan_time(0), "epoch+0d 00:00:00 UTC");
    assert_eq!(format_scan_time(86400 * 3 + 3600 * 5 + 60 * 7 + 9), "epoch+3d 05:07:09 UTC");
    assert_eq!(format_scan_time(86399), "epoch+0d 23:59:59 UTC");
}

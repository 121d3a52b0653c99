use trefm::fs::entry::FileEntry;

#[test]
fn from_remote_basic() {
    let entry = FileEntry::from_remote(
        "/remote/file.txt".to_string(),
        "file.txt".to_string(),
        1024,
        None,
        false,
        false,
        false,
    );
    assert_eq!(entry.name(), "file.txt");
    assert_eq!(entry.size(), 1024);
    assert!(!entry.is_dir());
    assert!(!entry.is_hidden());
    assert!(!entry.is_symlink());
    assert_eq!(entry.path(), "/remote/file.txt");
    assert!(entry.modified().is_none());
}

#[test]
fn from_remote_hidden() {
    let entry = FileEntry::from_remote(
        "/remote/.env".to_string(),
        ".env".to_string(),
        256,
        None,
        false,
        true,
        false,
    );
    assert!(entry.is_hidden());
    assert_eq!(entry.name(), ".env");
}

#[test]
fn from_remote_dir_zero_size() {
    let entry = FileEntry::from_remote(
        "/remote/docs".to_string(),
        "docs".to_string(),
        9999,
        None,
        true,
        false,
        false,
    );
    assert!(entry.is_dir());
    assert_eq!(entry.size(), 0, "directory size should always be 0");
}

#[test]
fn new_takes_name_from_path_and_hides_dot_files() {
    let entry = FileEntry::new("/tmp/x/.hidden".to_string(), false, 42, Some(7), false);
    assert_eq!(entry.name(), ".hidden");
    assert!(entry.is_hidden());
    assert_eq!(entry.size(), 42);
    assert_eq!(entry.modified(), Some(7));

    let dir = FileEntry::new("/tmp/x/mydir".to_string(), true, 4096, None, true);
    assert_eq!(dir.name(), "mydir");
    assert!(!dir.is_hidden());
    assert_eq!(dir.size(), 0);
    assert!(dir.is_symlink());
}

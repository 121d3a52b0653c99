use trefm::git::branch::{branch_info_from, check_dirty, BranchInfo};
use trefm::git::status::{get_status_for_path, map_git2_status, GitFileStatus, STATUS_IGNORED, STATUS_INDEX_NEW, STATUS_WT_MODIFIED, STATUS_WT_RENAMED};

#[test]
fn branch_info_clone_and_eq() {
    let info = BranchInfo {
        name: "main".to_string(),
        is_detached: false,
        commit_short: Some("abc1234".to_string()),
        is_dirty: false,
    };
    let cloned = info.clone();
    assert_eq!(info, cloned);
}

#[test]
fn branch_info_debug_format() {
    let info = BranchInfo {
        name: "develop".to_string(),
        is_detached: false,
        commit_short: Some("abc1234".to_string()),
        is_dirty: true,
    };
    let debug = format!("{:?}", info);
    assert!(debug.contains("develop"));
    assert!(debug.contains("is_dirty: true"));
}

#[test]
fn branch_info_ne_when_different() {
    let info1 = BranchInfo {
        name: "main".to_string(),
        is_detached: false,
        commit_short: Some("abc1234".to_string()),
        is_dirty: false,
    };
    let info2 = BranchInfo {
        name: "develop".to_string(),
        is_detached: false,
        commit_short: Some("abc1234".to_string()),
        is_dirty: false,
    };
    assert_ne!(info1, info2);
}

#[test]
fn get_status_for_path_missing_returns_unchanged() {
    let statuses: Vec<(String, GitFileStatus)> = Vec::new();
    let status = get_status_for_path(&statuses, "/nonexistent");
    assert_eq!(status, GitFileStatus::Unchanged);
}

#[test]
fn git_file_status_clone_and_eq() {
    let status = GitFileStatus::Modified;
    let cloned = status;
    assert_eq!(status, cloned);
}

#[test]
fn git_file_status_debug_format() {
    let status = GitFileStatus::Added;
    let debug = format!("{:?}", status);
    assert!(debug.contains("Added"));
}

#[test]
fn git_file_status_all_variants_distinct() {
    let variants = [
        GitFileStatus::Modified,
        GitFileStatus::Added,
        GitFileStatus::Deleted,
        GitFileStatus::Untracked,
        GitFileStatus::Unchanged,
        GitFileStatus::Renamed,
        GitFileStatus::Ignored,
    ];
    for i in 0..variants.len() {
        for j in (i + 1)..variants.len() {
            assert_ne!(variants[i], variants[j]);
        }
    }
}

#[test]
fn status_lookup_last_record_wins_and_compares_components() {
    let statuses = vec![
        ("/r/a.txt".to_string(), GitFileStatus::Added),
        ("/r/b.txt".to_string(), GitFileStatus::Deleted),
        ("/r//a.txt".to_string(), GitFileStatus::Modified),
    ];
    assert_eq!(get_status_for_path(&statuses, "/r/a.txt"), GitFileStatus::Modified);
    assert_eq!(get_status_for_path(&statuses, "/r/b.txt"), GitFileStatus::Deleted);
}

#[test]
fn status_bits_map_in_priority_order() {
    let statuses = [
        git2::Status::IGNORED | git2::Status::INDEX_NEW,
        git2::Status::INDEX_NEW | git2::Status::WT_MODIFIED,
        git2::Status::WT_NEW,
        git2::Status::INDEX_RENAMED | git2::Status::WT_DELETED,
        git2::Status::WT_DELETED,
        git2::Status::WT_TYPECHANGE,
        git2::Status::CURRENT,
        git2::Status::CONFLICTED,
    ];
    let mapped: Vec<GitFileStatus> = statuses.iter().map(|s| map_git2_status(s.bits())).collect();
    assert_eq!(
        mapped,
        vec![
            GitFileStatus::Ignored,
            GitFileStatus::Added,
            GitFileStatus::Untracked,
            GitFileStatus::Renamed,
            GitFileStatus::Deleted,
            GitFileStatus::Modified,
            GitFileStatus::Unchanged,
            GitFileStatus::Unchanged,
        ]
    );
}

#[test]
fn branch_info_built_from_head() {
    let b = branch_info_from(false, Some("main".to_string()), Some("0123456789abcdef".to_string()), &[0, 16384]);
    assert_eq!(b.name, "main");
    assert_eq!(b.commit_short, Some("0123456".to_string()));
    assert!(!b.is_dirty);
    let d = branch_info_from(true, Some("main".to_string()), None, &[256]);
    assert_eq!(d.name, "HEAD");
    assert!(d.is_detached);
    assert!(d.commit_short.is_none());
    assert!(d.is_dirty);
    assert!(!check_dirty(&[]));
}

#[test]
fn map_status_wt_modified() {
    assert_eq!(map_git2_status(git2::Status::WT_MODIFIED.bits()), GitFileStatus::Modified);
}

#[test]
fn map_status_index_modified() {
    assert_eq!(map_git2_status(git2::Status::INDEX_MODIFIED.bits()), GitFileStatus::Modified);
}

#[test]
fn map_status_index_new() {
    assert_eq!(map_git2_status(git2::Status::INDEX_NEW.bits()), GitFileStatus::Added);
}

#[test]
fn map_status_wt_new() {
    assert_eq!(map_git2_status(git2::Status::WT_NEW.bits()), GitFileStatus::Untracked);
}

#[test]
fn map_status_wt_deleted() {
    assert_eq!(map_git2_status(git2::Status::WT_DELETED.bits()), GitFileStatus::Deleted);
}

#[test]
fn map_status_index_deleted() {
    assert_eq!(map_git2_status(git2::Status::INDEX_DELETED.bits()), GitFileStatus::Deleted);
}

#[test]
fn map_status_index_renamed() {
    assert_eq!(map_git2_status(git2::Status::INDEX_RENAMED.bits()), GitFileStatus::Renamed);
}

#[test]
fn map_status_wt_renamed() {
    assert_eq!(map_git2_status(git2::Status::WT_RENAMED.bits()), GitFileStatus::Renamed);
}

#[test]
fn map_status_ignored() {
    assert_eq!(map_git2_status(git2::Status::IGNORED.bits()), GitFileStatus::Ignored);
}

#[test]
fn map_status_current() {
    assert_eq!(map_git2_status(git2::Status::CURRENT.bits()), GitFileStatus::Unchanged);
}

#[test]
fn map_status_wt_typechange() {
    assert_eq!(map_git2_status(git2::Status::WT_TYPECHANGE.bits()), GitFileStatus::Modified);
}

#[test]
fn map_status_index_typechange() {
    assert_eq!(map_git2_status(git2::Status::INDEX_TYPECHANGE.bits()), GitFileStatus::Modified);
}

#[test]
fn status_constants_match_git_bits() {
    assert_eq!(STATUS_WT_MODIFIED, git2::Status::WT_MODIFIED.bits());
    assert_eq!(STATUS_INDEX_NEW, git2::Status::INDEX_NEW.bits());
    assert_eq!(STATUS_IGNORED, git2::Status::IGNORED.bits());
    assert_eq!(STATUS_WT_RENAMED, git2::Status::WT_RENAMED.bits());
}

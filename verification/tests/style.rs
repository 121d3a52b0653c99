use trefm::config::theme::{Theme, ThemeColor};
use trefm::fs::entry::FileEntry;
use trefm::git::branch::BranchInfo;
use trefm::git::status::GitFileStatus;
use trefm::tui::statusbar::StatusBarProps;
use trefm::tui::style::{
    branch_info_span, entry_style, format_preview_size, format_time_ago, git_status_span, statusbar_line, visible_window,
};

const ROOT: &str = "/tmp/trefm-style";

fn make_file_entry(name: &str) -> FileEntry {
    FileEntry::new(format!("{ROOT}/{name}"), false, 7, None, false)
}

fn make_dir_entry(name: &str) -> FileEntry {
    FileEntry::new(format!("{ROOT}/{name}"), true, 0, None, false)
}

fn make_hidden_entry() -> FileEntry {
    FileEntry::new(format!("{ROOT}/.hidden"), false, 0, None, false)
}

fn default_theme() -> Theme {
    Theme::default()
}

fn statuses_for(entry: &FileEntry, status: GitFileStatus) -> Vec<(String, GitFileStatus)> {
    vec![(entry.path().to_string(), status)]
}

#[test]
fn git_status_span_modified_shows_m_yellow() {
    let entry = make_file_entry("file.txt");
    let statuses = statuses_for(&entry, GitFileStatus::Modified);
    let span = git_status_span(&entry, Some(&statuses), &default_theme());
    assert_eq!(span.text, "M ");
    assert_eq!(span.style.fg, Some(ThemeColor::Yellow));
}

#[test]
fn git_status_span_added_shows_a_green() {
    let entry = make_file_entry("new.txt");
    let statuses = statuses_for(&entry, GitFileStatus::Added);
    let span = git_status_span(&entry, Some(&statuses), &default_theme());
    assert_eq!(span.text, "A ");
    assert_eq!(span.style.fg, Some(ThemeColor::Green));
}

#[test]
fn git_status_span_deleted_shows_d_red() {
    let entry = make_file_entry("del.txt");
    let statuses = statuses_for(&entry, GitFileStatus::Deleted);
    let span = git_status_span(&entry, Some(&statuses), &default_theme());
    assert_eq!(span.text, "D ");
    assert_eq!(span.style.fg, Some(ThemeColor::Red));
}

#[test]
fn git_status_span_renamed_shows_r_blue() {
    let entry = make_file_entry("renamed.txt");
    let statuses = statuses_for(&entry, GitFileStatus::Renamed);
    let span = git_status_span(&entry, Some(&statuses), &default_theme());
    assert_eq!(span.text, "R ");
    assert_eq!(span.style.fg, Some(ThemeColor::Blue));
}

#[test]
fn git_status_span_untracked_shows_question_gray() {
    let entry = make_file_entry("untracked.txt");
    let statuses = statuses_for(&entry, GitFileStatus::Untracked);
    let span = git_status_span(&entry, Some(&statuses), &default_theme());
    assert_eq!(span.text, "? ");
    assert_eq!(span.style.fg, Some(ThemeColor::Gray));
}

#[test]
fn git_status_span_ignored_shows_bang_darkgray() {
    let entry = make_file_entry("ignored.txt");
    let statuses = statuses_for(&entry, GitFileStatus::Ignored);
    let span = git_status_span(&entry, Some(&statuses), &default_theme());
    assert_eq!(span.text, "! ");
    assert_eq!(span.style.fg, Some(ThemeColor::DarkGray));
}

#[test]
fn git_status_span_unchanged_shows_space() {
    let entry = make_file_entry("clean.txt");
    let statuses: Vec<(String, GitFileStatus)> = Vec::new();
    let span = git_status_span(&entry, Some(&statuses), &default_theme());
    assert_eq!(span.text, "  ");
    assert_eq!(span.style.fg, Some(ThemeColor::Reset));
}

#[test]
fn git_status_span_none_statuses_shows_space() {
    let entry = make_file_entry("file.txt");
    let span = git_status_span(&entry, None, &default_theme());
    assert_eq!(span.text, " ");
}

#[test]
fn git_status_span_directory_with_status() {
    let entry = make_dir_entry("subdir");
    let statuses = statuses_for(&entry, GitFileStatus::Added);
    let span = git_status_span(&entry, Some(&statuses), &default_theme());
    assert_eq!(span.text, "A ");
}

#[test]
fn git_status_span_hidden_file_with_status() {
    let entry = make_hidden_entry();
    let statuses = statuses_for(&entry, GitFileStatus::Modified);
    let span = git_status_span(&entry, Some(&statuses), &default_theme());
    assert_eq!(span.text, "M ");
}

#[test]
fn entry_style_dir_is_bold_blue() {
    let entry = make_dir_entry("mydir");
    let style = entry_style(&entry, &default_theme());
    assert_eq!(style.fg, Some(ThemeColor::Blue));
    assert!(style.bold);
}

#[test]
fn entry_style_hidden_is_dark_gray() {
    let entry = make_hidden_entry();
    let style = entry_style(&entry, &default_theme());
    assert_eq!(style.fg, Some(ThemeColor::DarkGray));
}

#[test]
fn entry_style_symlink_and_plain() {
    let link = FileEntry::new(format!("{ROOT}/link"), false, 0, None, true);
    assert_eq!(entry_style(&link, &default_theme()).fg, Some(ThemeColor::Cyan));
    let plain = make_file_entry("a.txt");
    let style = entry_style(&plain, &default_theme());
    assert_eq!(style.fg, None);
    assert!(!style.bold);
}

#[test]
fn branch_info_span_none_returns_empty() {
    let span = branch_info_span(None, &default_theme());
    assert_eq!(span.text, "");
}

#[test]
fn branch_info_span_clean_branch() {
    let info = BranchInfo {
        name: "main".to_string(),
        is_detached: false,
        commit_short: Some("abc1234".to_string()),
        is_dirty: false,
    };
    let span = branch_info_span(Some(&info), &default_theme());
    let content = span.text.clone();
    assert!(content.contains("main"), "should contain branch name");
    assert!(content.contains("abc1234"), "should contain commit hash");
    assert!(!content.contains('*'), "clean branch should have no asterisk");
    assert_eq!(span.style.fg, Some(ThemeColor::Green));
}

#[test]
fn branch_info_span_dirty_branch() {
    let info = BranchInfo {
        name: "feature-x".to_string(),
        is_detached: false,
        commit_short: Some("def5678".to_string()),
        is_dirty: true,
    };
    let span = branch_info_span(Some(&info), &default_theme());
    let content = span.text.clone();
    assert!(content.contains("feature-x"));
    assert!(content.contains('*'), "dirty branch should have asterisk");
    assert_eq!(span.style.fg, Some(ThemeColor::Yellow));
}

#[test]
fn branch_info_span_detached_head() {
    let info = BranchInfo {
        name: "HEAD".to_string(),
        is_detached: true,
        commit_short: Some("aaa1111".to_string()),
        is_dirty: false,
    };
    let span = branch_info_span(Some(&info), &default_theme());
    let content = span.text.clone();
    assert!(content.contains("HEAD"));
    assert!(content.contains("aaa1111"));
}

#[test]
fn branch_info_span_no_commit_short() {
    let info = BranchInfo { name: "main".to_string(), is_detached: false, commit_short: None, is_dirty: false };
    let span = branch_info_span(Some(&info), &default_theme());
    let content = span.text.clone();
    assert!(content.contains("main"));
    assert!(!content.contains('('));
}

#[test]
fn branch_info_span_dirty_no_commit() {
    let info = BranchInfo { name: "dev".to_string(), is_detached: false, commit_short: None, is_dirty: true };
    let span = branch_info_span(Some(&info), &default_theme());
    let content = span.text.clone();
    assert!(content.contains("dev*"));
    assert_eq!(span.style.fg, Some(ThemeColor::Yellow));
}

#[test]
fn branch_info_span_exact_text_and_background() {
    let info = BranchInfo {
        name: "dev".to_string(),
        is_detached: false,
        commit_short: Some("1234567".to_string()),
        is_dirty: true,
    };
    let span = branch_info_span(Some(&info), &default_theme());
    assert_eq!(span.text, "  dev* (1234567)");
    assert_eq!(span.style.bg, Some(ThemeColor::White));
}

#[test]
fn format_preview_size_units() {
    assert_eq!(format_preview_size(512), "512 B");
    assert_eq!(format_preview_size(1536), "1.5 KB");
    assert_eq!(format_preview_size(3 * 1024 * 1024), "3.0 MB");
}

#[test]
fn statusbar_line_pieces() {
    let entry = make_file_entry("notes.txt");
    let props = StatusBarProps {
        entry_count: 12,
        selected_index: 4,
        selected_entry: Some(&entry),
        show_hidden: true,
        status_message: Some("Copied"),
        branch_info: None,
        remote_label: Some("me@host"),
    };
    let spans = statusbar_line(&props, &default_theme());
    let texts: Vec<&str> = spans.iter().map(|s| s.text.as_str()).collect();
    assert_eq!(texts, vec![" 5/12", "  notes.txt (7 B)", " [H]", "  [SSH: me@host]", "", "  Copied"]);
    assert!(spans[0].style.bold);
    assert_eq!(spans[0].style.fg, Some(ThemeColor::Black));
    assert!(spans[5].style.italic);
    assert_eq!(spans[5].style.fg, Some(ThemeColor::Magenta));
}

#[test]
fn statusbar_line_empty_listing() {
    let dir = make_dir_entry("src");
    let props = StatusBarProps {
        entry_count: 0,
        selected_index: 0,
        selected_entry: Some(&dir),
        show_hidden: false,
        status_message: None,
        branch_info: None,
        remote_label: None,
    };
    let spans = statusbar_line(&props, &default_theme());
    assert_eq!(spans[0].text, " 0/0");
    assert_eq!(spans[1].text, "  [DIR] src");
    assert_eq!(spans[2].text, "");
}

#[test]
fn visible_window_keeps_cursor_in_view() {
    assert_eq!(visible_window(3, 5, 10), (0, 5));
    assert_eq!(visible_window(2, 100, 10), (0, 10));
    assert_eq!(visible_window(50, 100, 10), (45, 55));
    assert_eq!(visible_window(98, 100, 10), (90, 100));
    assert_eq!(visible_window(0, 100, 0), (0, 0));
}

#[test]
fn format_time_ago_units() {
    assert_eq!(format_time_ago(None), "just now");
    assert_eq!(format_time_ago(Some(0)), "0s ago");
    assert_eq!(format_time_ago(Some(59)), "59s ago");
    assert_eq!(format_time_ago(Some(60)), "1m ago");
    assert_eq!(format_time_ago(Some(3599)), "59m ago");
    assert_eq!(format_time_ago(Some(3600)), "1h ago");
    assert_eq!(format_time_ago(Some(86399)), "23h ago");
    assert_eq!(format_time_ago(Some(86400 * 3 + 5)), "3d ago");
}

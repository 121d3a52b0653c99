use trefm::fs::entry::FileEntry;
use trefm::nav::filter::{SortDirection, SortField};
use trefm::tui::app::{PanelState, TabEntry, TabGroup};
use trefm::tui::background::{excluded_dirs, ScanStatus};
use trefm::tui::icons::icon_for_entry;
use trefm::tui::remote_connect::{ConnectField, ConnectFormState};
use trefm::tui::statusbar::format_size;

fn file(path: &str, size: u64) -> FileEntry {
    FileEntry::new(path.to_string(), false, size, None, false)
}

fn dir(path: &str) -> FileEntry {
    FileEntry::new(path.to_string(), true, 0, None, false)
}

#[test]
fn excluded_dirs_contains_expected() {
    let dirs = excluded_dirs();
    assert!(dirs.contains(&".git"));
    assert!(dirs.contains(&"node_modules"));
    assert!(dirs.contains(&"target"));
    assert!(dirs.contains(&".Trash"));
    assert!(dirs.contains(&"Library"));
    assert!(dirs.contains(&"__pycache__"));
}

#[test]
fn scan_status_eq() {
    assert_eq!(ScanStatus::Idle, ScanStatus::Idle);
    assert_eq!(ScanStatus::Scanning, ScanStatus::Scanning);
    assert_ne!(ScanStatus::Idle, ScanStatus::Scanning);
}

#[test]
fn connect_field_next_cycles() {
    assert_eq!(ConnectField::Host.next(), ConnectField::Port);
    assert_eq!(ConnectField::Port.next(), ConnectField::Username);
    assert_eq!(ConnectField::Username.next(), ConnectField::Password);
    assert_eq!(ConnectField::Password.next(), ConnectField::Host);
}

#[test]
fn connect_field_prev_cycles() {
    assert_eq!(ConnectField::Host.prev(), ConnectField::Password);
    assert_eq!(ConnectField::Port.prev(), ConnectField::Host);
    assert_eq!(ConnectField::Username.prev(), ConnectField::Port);
    assert_eq!(ConnectField::Password.prev(), ConnectField::Username);
}

#[test]
fn default_form_state() {
    let state = ConnectFormState::default();
    assert_eq!(state.port, "22");
    assert!(state.host.is_empty());
    assert!(state.username.is_empty());
    assert!(state.password.is_empty());
    assert_eq!(state.focused, ConnectField::Host);
    assert!(!state.is_connecting);
    assert!(state.error_message.is_none());
}

#[test]
fn password_is_masked() {
    let state = ConnectFormState { password: "secret".to_string(), ..Default::default() };
    assert_eq!(state.display_value(ConnectField::Password), "******");
}

#[test]
fn focused_value_edits_the_focused_field() {
    let mut state = ConnectFormState { focused: ConnectField::Username, ..Default::default() };
    state.focused_value_mut().push_str("kim");
    assert_eq!(state.username, "kim");
    assert!(state.host.is_empty());
}

#[test]
fn format_size_bytes() {
    assert_eq!(format_size(0), "0 B");
    assert_eq!(format_size(512), "512 B");
    assert_eq!(format_size(1023), "1023 B");
}

#[test]
fn format_size_kilobytes() {
    assert_eq!(format_size(1024), "1.0 KB");
    assert_eq!(format_size(1536), "1.5 KB");
}

#[test]
fn format_size_megabytes() {
    assert_eq!(format_size(1024 * 1024), "1.0 MB");
    assert_eq!(format_size(5 * 1024 * 1024), "5.0 MB");
}

#[test]
fn format_size_gigabytes() {
    assert_eq!(format_size(1024 * 1024 * 1024), "1.0 GB");
    assert_eq!(format_size(2 * 1024 * 1024 * 1024), "2.0 GB");
}

#[test]
fn format_size_agrees_with_float_formatting() {
    let samples: [u64; 12] = [
        1024,
        1280,
        1331,
        1075,
        2047,
        1048575,
        1572864,
        1073741823,
        1610612736,
        9007199254740993,
        18446744073709551615,
        123456789012345,
    ];
    for &b in samples.iter() {
        let expected = if b >= 1 << 30 {
            format!("{:.1} GB", b as f64 / (1u64 << 30) as f64)
        } else if b >= 1 << 20 {
            format!("{:.1} MB", b as f64 / (1u64 << 20) as f64)
        } else {
            format!("{:.1} KB", b as f64 / 1024.0)
        };
        assert_eq!(format_size(b), expected, "bytes {b}");
    }
}

#[test]
fn icons_by_kind_name_and_extension() {
    assert_eq!(icon_for_entry(&dir("/p/src")), "\u{f07b} ");
    assert_eq!(icon_for_entry(&file("/p/main.rs", 1)), "\u{e7a8} ");
    assert_eq!(icon_for_entry(&file("/p/script.py", 1)), "\u{e73c} ");
    assert_eq!(icon_for_entry(&file("/p/data.xyz", 1)), "\u{f15b} ");
    assert_eq!(icon_for_entry(&file("/p/Dockerfile", 1)), "\u{f308} ");
    assert_eq!(icon_for_entry(&file("/p/README.md", 1)), "\u{e73e} ");
    assert_eq!(icon_for_entry(&file("/p/photo.png", 1)), "\u{f1c5} ");
    assert_eq!(icon_for_entry(&file("/p/archive.zip", 1)), "\u{f410} ");
    assert_eq!(icon_for_entry(&file("/p/noext", 1)), "\u{f15b} ");
}

fn raw() -> Vec<FileEntry> {
    vec![file("/d/b.txt", 3), file("/d/.hidden", 1), dir("/d/sub"), file("/d/a.txt", 9)]
}

fn names(p: &PanelState) -> Vec<String> {
    p.entries().iter().map(|e| e.name().to_string()).collect()
}

#[test]
fn panel_state_lists_sorts_and_hides() {
    let p = PanelState::from_dir("/d".to_string(), &raw());
    assert_eq!(names(&p), vec!["sub", "a.txt", "b.txt"]);
    let p = p.with_toggle_hidden(&raw());
    assert_eq!(names(&p), vec!["sub", ".hidden", "a.txt", "b.txt"]);
    let p = p.with_sort(SortField::Size, SortDirection::Descending, &raw());
    assert_eq!(names(&p), vec!["sub", "a.txt", "b.txt", ".hidden"]);
    let p = p.with_next_sort(&raw());
    assert_eq!(p.sort_field(), SortField::Date);
    let p = p.with_cursor_bottom();
    assert_eq!(p.selected_index(), 3);
    let p = p.with_cursor_down().with_cursor_up().with_cursor_to(1);
    assert_eq!(p.selected_entry().unwrap().name(), "b.txt");
}

#[test]
fn panel_state_history_round_trip() {
    let p = PanelState::from_dir("/d".to_string(), &raw());
    assert!(p.back_target().is_none());
    let q = p.navigate_to("/d/sub".to_string(), &[file("/d/sub/x", 1)]);
    assert_eq!(q.current_dir(), "/d/sub");
    assert_eq!(q.back_target(), Some("/d".to_string()));
    let back = q.go_back(&raw()).unwrap();
    assert_eq!(back.forward_target(), Some("/d".to_string()));
    assert_eq!(names(&back), vec!["sub", "a.txt", "b.txt"]);
    assert_eq!(p.parent_dir(), "/");
}

fn tab(label: &str) -> TabEntry {
    TabEntry {
        panel: PanelState::from_dir("/d".to_string(), &raw()),
        git_statuses: None,
        branch_info: None,
        label: label.to_string(),
    }
}

fn labels(g: &TabGroup) -> Vec<String> {
    g.tabs().iter().map(|t| t.label.clone()).collect()
}

#[test]
fn tab_group_add_close_cycle() {
    let g = TabGroup::new(tab("a")).with_new_tab(tab("b")).with_new_tab(tab("c"));
    assert_eq!(labels(&g), vec!["a", "b", "c"]);
    assert_eq!(g.active_tab_index(), 2);
    let g = g.with_next_tab();
    assert_eq!(g.active_tab_index(), 0);
    let g = g.with_prev_tab();
    assert_eq!(g.active_tab().label, "c");
    let g = g.with_active_tab(0).with_new_tab(tab("x"));
    assert_eq!(labels(&g), vec!["a", "x", "b", "c"]);
    let g = g.with_closed_tab(1);
    assert_eq!(labels(&g), vec!["a", "b", "c"]);
    assert_eq!(g.active_tab_index(), 1);
    let g = g.with_active_tab(7);
    assert_eq!(g.active_tab_index(), 1);
    let g = g.with_updated_active(tab("B"));
    assert_eq!(labels(&g), vec!["a", "B", "c"]);
}

#[test]
fn tab_group_limits() {
    let mut g = TabGroup::new(tab("0"));
    for i in 1..12 {
        g = g.with_new_tab(tab(&i.to_string()));
    }
    assert_eq!(g.tab_count(), 9);
    let one = TabGroup::new(tab("only")).with_closed_tab(0);
    assert_eq!(one.tab_count(), 1);
}

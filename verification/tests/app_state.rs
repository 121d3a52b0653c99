use trefm::nav::filter::{SortDirection, SortField};
use trefm::fs::preview::TextPreview;
use trefm::config::keymap::Keymap;
use trefm::config::theme::Theme;
use trefm::event::Command;
use trefm::fs::entry::FileEntry;
use trefm::nav::bookmarks::Bookmarks;
use trefm::tui::app::PanelState;
use trefm::tui::input::AppMode;
use trefm::tui::state::{dir_label, App};

fn file(path: &str) -> FileEntry {
    FileEntry::new(path.to_string(), false, 10, None, false)
}

fn dir(path: &str) -> FileEntry {
    FileEntry::new(path.to_string(), true, 0, None, false)
}

fn sample_app() -> App {
    let raw = vec![dir("/home/u/src"), file("/home/u/b.txt"), file("/home/u/a.txt")];
    let panel = PanelState::from_dir("/home/u".to_string(), &raw);
    App::new(panel, None, None, Bookmarks::new(), Keymap::default(), Theme::default(), true)
}

#[test]
fn app_new_starts_in_normal_mode() {
    let app = sample_app();
    assert!(matches!(app.mode(), AppMode::Normal));
    assert!(!app.should_quit());
    assert!(app.status_message().is_none());
    assert!(!app.is_dual_mode());
    assert_eq!(app.active_panel_index(), 0);
    assert_eq!(app.active_tab_group().tab_count(), 1);
    assert_eq!(app.panel().current_dir(), "/home/u");
    assert!(app.show_icons());
    assert!(!app.is_remote());
}

#[test]
fn dir_label_is_last_component_or_root() {
    assert_eq!(dir_label("/home/u/projects"), "projects");
    assert_eq!(dir_label("/"), "/");
}

#[test]
fn app_quit_and_status() {
    let app = sample_app().with_status("hello".to_string());
    assert_eq!(app.status_message(), Some("hello"));
    let app = app.with_clear_status().with_quit();
    assert!(app.status_message().is_none());
    assert!(app.should_quit());
}

#[test]
fn app_cursor_down_moves_selection() {
    let app = sample_app();
    assert_eq!(app.panel().selected_index(), 0);
    let (app, refresh) = app.handle_command(Command::CursorDown, None);
    assert!(refresh);
    assert_eq!(app.panel().selected_index(), 1);
    let (app, _) = app.handle_command(Command::CursorUp, None);
    assert_eq!(app.panel().selected_index(), 0);
}

#[test]
fn app_enter_directory_uses_listing() {
    let app = sample_app();
    let req = app.listing_request(&Command::Enter).expect("directory selected first");
    assert_eq!(req.path, "/home/u/src");
    assert!(req.canonicalize);
    let listing = Ok(("/home/u/src".to_string(), vec![file("/home/u/src/main.rs")]));
    let (app, refresh) = app.handle_command(Command::Enter, Some(listing));
    assert!(refresh);
    assert_eq!(app.panel().current_dir(), "/home/u/src");
    assert_eq!(app.panel().entries().len(), 1);
}

#[test]
fn app_enter_error_sets_status() {
    let app = sample_app();
    let listing = Err("permission denied".to_string());
    let (app, refresh) = app.handle_command(Command::Enter, Some(listing));
    assert!(!refresh);
    assert_eq!(app.status_message(), Some("Error: permission denied"));
    assert_eq!(app.panel().current_dir(), "/home/u");
}

#[test]
fn app_enter_on_file_needs_no_listing() {
    let app = sample_app();
    let (app, _) = app.handle_command(Command::CursorDown, None);
    assert!(app.listing_request(&Command::Enter).is_none());
}

#[test]
fn app_tabs_open_and_close() {
    let app = sample_app().with_new_tab();
    assert_eq!(app.active_tab_group().tab_count(), 2);
    assert_eq!(app.active_tab_group().active_tab_index(), 1);
    let app = app.with_prev_tab();
    assert_eq!(app.active_tab_group().active_tab_index(), 0);
    let app = app.with_next_tab();
    assert_eq!(app.active_tab_group().active_tab_index(), 1);
    let app = app.with_close_tab();
    assert_eq!(app.active_tab_group().tab_count(), 1);
}

#[test]
fn app_search_push_and_pop() {
    let app = sample_app().with_mode(AppMode::Search(String::new()));
    let app = app.search_push_char('a');
    assert!(matches!(app.mode(), AppMode::Search(q) if q == "a"));
    assert_eq!(app.search_selected(), 0);
    let app = app.search_pop_char();
    assert!(matches!(app.mode(), AppMode::Search(q) if q.is_empty()));
}

#[test]
fn app_search_outside_search_mode_is_noop() {
    let app = sample_app().search_push_char('x');
    assert!(matches!(app.mode(), AppMode::Normal));
}

#[test]
fn app_bookmark_add_and_empty_label() {
    let app = sample_app().bookmark_add("home");
    assert_eq!(app.bookmarks().get("home").map(|s| s.as_str()), Some("/home/u"));
    assert_eq!(app.status_message(), Some("Bookmark 'home' added"));
    assert!(matches!(app.mode(), AppMode::Normal));
    let app = app.bookmark_add("");
    assert_eq!(app.status_message(), Some("Bookmark label cannot be empty"));
    assert_eq!(app.bookmarks().len(), 1);
}

#[test]
fn app_toggle_dual_mode() {
    let app = sample_app().with_toggle_dual_mode(None, None);
    assert!(app.is_dual_mode());
}

#[test]
fn panels_keep_their_own_cursor() {
    let app = sample_app().with_toggle_dual_mode(None, None);
    assert!(app.is_dual_mode());
    let (app, _) = app.handle_command(Command::CursorDown, None);
    let (app, _) = app.handle_command(Command::CursorDown, None);
    assert_eq!(app.left_panel().selected_index(), 2);
    assert_eq!(app.right_panel().selected_index(), 0);
    let app = app.with_active_panel(1);
    let (app, _) = app.handle_command(Command::CursorDown, None);
    assert_eq!(app.left_panel().selected_index(), 2);
    assert_eq!(app.right_panel().selected_index(), 1);
}

#[test]
fn sort_field_cycles_through_all_four() {
    let raw = vec![file("/home/u/b.txt"), file("/home/u/a.txt")];
    let p0 = PanelState::from_dir("/home/u".to_string(), &raw);
    assert_eq!(p0.sort_field(), SortField::Name);
    let p1 = p0.with_next_sort(&raw);
    assert_eq!(p1.sort_field(), SortField::Size);
    let p2 = p1.with_next_sort(&raw);
    assert_eq!(p2.sort_field(), SortField::Date);
    let p3 = p2.with_next_sort(&raw);
    assert_eq!(p3.sort_field(), SortField::Type);
    let p4 = p3.with_next_sort(&raw);
    assert_eq!(p4.sort_field(), SortField::Name);
}

fn empty_app() -> App {
    let panel = PanelState::from_dir("/tmp/empty".to_string(), &[]);
    App::new(panel, None, None, Bookmarks::new(), Keymap::default(), Theme::default(), true)
}

#[test]
fn recent_move_down_empty_results_stays_zero() {
    let app = empty_app();
    let app = app.load_recent_files(Ok(Vec::new()));
    assert!(app.recent_results().is_empty());
    let app = app.recent_move_down();
    assert_eq!(app.recent_selected(), 0);
}

#[test]
fn recent_confirm_empty_results_returns_to_normal() {
    let app = empty_app();
    let app = app.load_recent_files(Ok(Vec::new()));
    assert!(app.recent_confirm_request().is_none());
    let (app, _) = app.recent_confirm(None);
    assert!(matches!(app.mode(), AppMode::Normal));
}

#[test]
fn set_sort_takes_field_and_direction_from_command() {
    let app = sample_app();
    let cmd = Command::SetSort(SortField::Size, SortDirection::Descending);
    let req = app.listing_request(&cmd).expect("sorting relists the directory");
    assert_eq!(req.path, "/home/u");
    let raw = vec![dir("/home/u/src"), file("/home/u/b.txt"), file("/home/u/a.txt")];
    let (app, refresh) = app.handle_command(cmd, Some(Ok(("/home/u".to_string(), raw))));
    assert!(refresh);
    assert_eq!(app.panel().sort_field(), SortField::Size);
    assert_eq!(app.panel().sort_direction(), SortDirection::Descending);
    assert_eq!(app.panel().current_dir(), "/home/u");
    assert!(app.status_message().is_some());
}

#[test]
fn enter_pager_on_directory_leaves_app_unchanged() {
    let app = sample_app();
    assert!(app.panel().selected_entry().unwrap().is_dir());
    let preview = TextPreview { lines: vec!["x".to_string()], total_lines: 1, is_truncated: false };
    let app = app.enter_pager(false, Ok(preview));
    assert!(matches!(app.mode(), AppMode::Normal));
    assert!(app.status_message().is_none());
    assert!(app.pager_lines().is_empty());
}

#[test]
fn enter_pager_on_binary_file_leaves_app_unchanged() {
    let app = sample_app();
    let (app, _) = app.handle_command(Command::CursorDown, None);
    let preview = TextPreview { lines: vec!["x".to_string()], total_lines: 1, is_truncated: false };
    let app = app.enter_pager(true, Ok(preview));
    assert!(matches!(app.mode(), AppMode::Normal));
    assert!(app.status_message().is_none());
    assert!(app.pager_file().is_none());
}

#[test]
fn enter_pager_on_text_file_opens_pager() {
    let app = sample_app();
    let (app, _) = app.handle_command(Command::CursorDown, None);
    let preview = TextPreview { lines: vec!["one".to_string(), "two".to_string()], total_lines: 2, is_truncated: false };
    let app = app.enter_pager(false, Ok(preview));
    assert!(matches!(app.mode(), AppMode::Pager { .. }));
    assert_eq!(app.pager_lines().len(), 2);
}

#[test]
fn panel_go_back_returns_to_previous_directory() {
    let first = vec![file("/a/one.txt")];
    let second = vec![file("/b/two.txt"), file("/b/three.txt")];
    let p = PanelState::from_dir("/a".to_string(), &first);
    let p = p.navigate_to("/b".to_string(), &second);
    assert_eq!(p.current_dir(), "/b");
    let back = p.go_back(&first).expect("history has /a");
    assert_eq!(back.current_dir(), "/a");
    assert_eq!(back.entries().len(), 1);
    let fwd = back.go_forward(&second).expect("forward history has /b");
    assert_eq!(fwd.current_dir(), "/b");
    assert_eq!(fwd.entries().len(), 2);
}

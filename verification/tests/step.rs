use trefm::action::Action;
use trefm::config::keymap::Keymap;
use trefm::config::theme::Theme;
use trefm::event::Command;
use trefm::fs::entry::FileEntry;
use trefm::nav::bookmarks::Bookmarks;
use trefm::nav::filter::{SortDirection, SortField};
use trefm::tui::app::PanelState;
use trefm::tui::background::{ScanMessage, ScanStatus};
use trefm::tui::input::{AppMode, ConfirmAction, InputAction};
use trefm::tui::remote_connect::ConnectField;
use trefm::tui::state::App;
use trefm::tui::step::{parse_port, Effect, StepContext};

fn file(path: &str) -> FileEntry {
    FileEntry::new(path.to_string(), false, 10, None, false)
}

fn dir(path: &str) -> FileEntry {
    FileEntry::new(path.to_string(), true, 0, None, false)
}

fn sample_app() -> App {
    let raw = vec![dir("/home/u/src"), file("/home/u/b.txt"), file("/home/u/a.txt")];
    let panel = PanelState::from_dir("/home/u".to_string(), &raw);
    App::new(panel, None, None, Bookmarks::new(), Keymap::default(), Theme::default(), true)
}

fn ctx() -> StepContext {
    StepContext { has_session: false, has_terminal: false, half_page: 10 }
}

#[test]
fn step_quit_sets_flag() {
    let (app, e) = sample_app().on_action(InputAction::Quit, ctx());
    assert!(app.should_quit());
    assert!(matches!(e, Effect::Done));
}

#[test]
fn step_local_command_is_handed_to_the_loop() {
    let app = sample_app().with_status("old".to_string());
    let (app, e) = app.on_action(InputAction::Command(Command::CursorDown), ctx());
    assert!(app.status_message().is_none());
    assert!(matches!(e, Effect::RunCommand(Command::CursorDown)));
}

#[test]
fn step_bookmark_label_typing() {
    let app = sample_app().with_mode(AppMode::BookmarkAdd("ab".to_string()));
    let (app, _) = app.on_action(InputAction::BookmarkChar('c'), ctx());
    assert!(matches!(app.mode(), AppMode::BookmarkAdd(l) if l == "abc"));
    let (app, _) = app.on_action(InputAction::BookmarkBackspace, ctx());
    assert!(matches!(app.mode(), AppMode::BookmarkAdd(l) if l == "ab"));
    let (app, e) = app.on_action(InputAction::BookmarkConfirm, ctx());
    assert!(matches!(e, Effect::SaveBookmarks));
    assert!(matches!(app.mode(), AppMode::Normal));
    assert_eq!(app.bookmarks().get("ab").map(|s| s.as_str()), Some("/home/u"));
}

#[test]
fn step_sort_popup_moves_and_confirms() {
    let (app, _) = sample_app().on_action(InputAction::EnterMode(AppMode::SortSelect { selected: 2 }), ctx());
    assert!(matches!(app.mode(), AppMode::SortSelect { selected: 0 }));
    let mut app = app;
    for _ in 0..5 {
        app = app.on_action(InputAction::SortSelectDown, ctx()).0;
    }
    assert!(matches!(app.mode(), AppMode::SortSelect { selected: 3 }));
    let (app, _) = app.on_action(InputAction::SortSelectUp, ctx());
    let (_, e) = app.on_action(InputAction::SortSetDescending, ctx());
    assert!(matches!(e, Effect::Sort(SortField::Date, SortDirection::Descending)));
}

#[test]
fn step_after_sort_reports_field_and_direction() {
    let raw = vec![file("/home/u/a.txt"), file("/home/u/b.txt")];
    let (app, refresh) = sample_app().after_sort(SortField::Size, SortDirection::Descending, Ok(raw));
    assert!(refresh);
    assert_eq!(app.status_message(), Some("Sort: Size Descending"));
    assert_eq!(app.panel().sort_field(), SortField::Size);
    let (app, refresh) = sample_app().after_sort(SortField::Name, SortDirection::Ascending, Err("gone".to_string()));
    assert!(!refresh);
    assert_eq!(app.status_message(), Some("Error: gone"));
}

#[test]
fn step_pager_scrolls_within_bounds() {
    let app = sample_app().with_mode(AppMode::Pager { scroll: 0 });
    let (app, _) = app.on_action(InputAction::PagerDown, ctx());
    // No lines loaded: the last line is 0.
    assert!(matches!(app.mode(), AppMode::Pager { scroll: 0 }));
    let (app, _) = app.on_action(InputAction::PagerHalfUp, ctx());
    assert!(matches!(app.mode(), AppMode::Pager { scroll: 0 }));
}

#[test]
fn parse_port_accepts_numbers_only() {
    assert_eq!(parse_port("2222"), 2222);
    assert_eq!(parse_port("+80"), 80);
    assert_eq!(parse_port("0"), 0);
    assert_eq!(parse_port("65535"), 65535);
    assert_eq!(parse_port("65536"), 22);
    assert_eq!(parse_port("abc"), 22);
    assert_eq!(parse_port(""), 22);
    assert_eq!(parse_port("+"), 22);
    assert_eq!(parse_port("-1"), 22);
    assert_eq!(parse_port(" 22"), 22);
}

#[test]
fn step_connect_form_requires_host_and_user() {
    let app = sample_app().with_mode(AppMode::RemoteConnect);
    let (app, e) = app.on_action(InputAction::RemoteConnectConfirm, ctx());
    assert!(matches!(e, Effect::Done));
    assert_eq!(app.connect_form().error_message.as_deref(), Some("Host and username are required"));
}

#[test]
fn step_connect_form_typing_and_confirm() {
    let mut app = sample_app().with_mode(AppMode::RemoteConnect);
    for c in "srv".chars() {
        app = app.on_action(InputAction::RemoteConnectChar(c), ctx()).0;
    }
    app = app.on_action(InputAction::RemoteConnectNextField, ctx()).0;
    assert_eq!(app.connect_form().focused, ConnectField::Port);
    app = app.on_action(InputAction::RemoteConnectBackspace, ctx()).0;
    app = app.on_action(InputAction::RemoteConnectChar('3'), ctx()).0;
    app = app.on_action(InputAction::RemoteConnectNextField, ctx()).0;
    for c in "me".chars() {
        app = app.on_action(InputAction::RemoteConnectChar(c), ctx()).0;
    }
    let (app, e) = app.on_action(InputAction::RemoteConnectConfirm, ctx());
    match e {
        Effect::Connect(cfg) => {
            assert_eq!(cfg.host, "srv");
            assert_eq!(cfg.port, 23);
            assert_eq!(cfg.username, "me");
        }
        _ => panic!("expected a connect effect"),
    }
    assert!(app.connect_form().is_connecting);
}

#[test]
fn step_terminal_toggle_spawns_in_current_dir() {
    let (_, e) = sample_app().on_action(InputAction::TerminalToggle, ctx());
    assert!(matches!(e, Effect::SpawnTerminal(d) if d == "/home/u"));
    let with_term = StepContext { has_session: false, has_terminal: true, half_page: 10 };
    let (app, _) = sample_app().on_action(InputAction::TerminalToggle, with_term);
    assert!(app.terminal_visible());
    assert!(matches!(app.mode(), AppMode::Terminal));
    let (app, _) = app.on_action(InputAction::TerminalToggle, with_term);
    assert!(matches!(app.mode(), AppMode::Normal));
}

#[test]
fn step_confirm_delete_hands_paths_to_loop() {
    let app = sample_app().with_mode(AppMode::Confirm(ConfirmAction::Delete(vec!["/home/u/a.txt".to_string()])));
    let (_, e) = app.on_action(InputAction::ConfirmApproved, ctx());
    assert!(matches!(e, Effect::Delete(v) if v == vec!["/home/u/a.txt".to_string()]));
    let (app, refresh) = sample_app().after_delete(2, Ok(()), Some(Ok(vec![file("/home/u/b.txt")])));
    assert!(refresh);
    assert_eq!(app.status_message(), Some("Deleted 2 item(s)"));
    let (app, _) = sample_app().after_delete(1, Err("denied".to_string()), None);
    assert_eq!(app.status_message(), Some("Delete failed: denied"));
}

#[test]
fn step_request_delete_of_selected_entry() {
    let (app, _) = sample_app().on_action(InputAction::RequestDelete, ctx());
    assert!(matches!(app.mode(), AppMode::Confirm(ConfirmAction::Delete(v)) if v == &vec!["/home/u/src".to_string()]));
}

#[test]
fn step_edit_directory_refused() {
    let (app, e) = sample_app().on_action(InputAction::EditFile, ctx());
    assert!(matches!(e, Effect::Done));
    assert_eq!(app.status_message(), Some("Cannot edit a directory"));
}

#[test]
fn step_scan_messages_update_status() {
    let (app, save) = sample_app().on_scan_message(ScanMessage::ScanStarted);
    assert!(!save);
    assert_eq!(*app.scan_status(), ScanStatus::Scanning);
    let (app, _) = app.on_scan_message(ScanMessage::ScanError("x".to_string()));
    assert_eq!(*app.scan_status(), ScanStatus::Idle);
}

#[test]
fn step_palette_runs_selected_action() {
    let app = sample_app();
    let idx = app.action_registry().all().iter().position(|d| d.action == Action::Quit).unwrap();
    let app = app.with_mode(AppMode::CommandPalette { query: String::new(), selected: idx });
    let (app, _) = app.on_action(InputAction::CommandPaletteConfirm, ctx());
    assert!(app.should_quit());
}

fn remote_app() -> App {
    sample_app().on_remote_connected(
        "me@srv".to_string(),
        "/home/me".to_string(),
        vec![dir("/home/me/docs"), file("/home/me/x.txt")],
    )
}

#[test]
fn step_remote_session_lists_directories() {
    let app = remote_app();
    assert!(app.is_remote());
    assert_eq!(app.status_message(), Some("Connected to me@srv"));
    assert_eq!(app.panel().current_dir(), "/home/me");
    let session = StepContext { has_session: true, has_terminal: false, half_page: 10 };
    let (_, e) = remote_app().on_action(InputAction::Command(Command::Enter), session);
    assert!(matches!(e, Effect::RemoteList(p) if p == "/home/me/docs"));
    let (app2, e) = remote_app().on_action(InputAction::Command(Command::GoUp), session);
    assert!(matches!(e, Effect::RemoteList(p) if p == "/home"));
    assert!(app2.is_remote());
    let (app3, _) = remote_app().on_action(InputAction::Command(Command::ToggleHidden), session);
    assert_eq!(app3.status_message(), Some("Toggle hidden not supported in remote mode"));
    let (app4, e) = remote_app().on_action(InputAction::EnterMode(AppMode::RemoteConnect), session);
    assert!(matches!(e, Effect::Disconnect));
    assert!(!app4.is_remote());
}

#[test]
fn step_cwd_sync_command() {
    let app = sample_app().with_terminal_visible(true);
    assert_eq!(app.cwd_sync_command("/tmp", true, true).as_deref(), Some("cd '/home/u'\n"));
    assert!(app.cwd_sync_command("/home/u", true, true).is_none());
    assert!(app.cwd_sync_command("/tmp", false, true).is_none());
}

use trefm::action::Action;
use trefm::config::keymap::Keymap;
use trefm::event::Command;
use trefm::tui::input::{
    action_to_input_action, handle_key, handle_remote_connect_key, AppMode, ConfirmAction, InputAction, InputState, KeyCode, KeyEvent, ALT, CONTROL,
    SHIFT,
};

fn key(code: KeyCode) -> KeyEvent {
    KeyEvent::new(code, 0)
}

fn key_with_mod(code: KeyCode, modifiers: u8) -> KeyEvent {
    KeyEvent::new(code, modifiers)
}

fn default_keymap() -> Keymap {
    Keymap::default()
}

// --- Normal mode navigation ---

#[test]
fn normal_j_cursor_down() {
    let state = InputState::new();
    let km = default_keymap();
    let (action, _) = handle_key(key(KeyCode::Char('j')), &AppMode::Normal, &state, &km);
    assert!(matches!(action, InputAction::Command(Command::CursorDown)));
}

#[test]
fn normal_k_cursor_up() {
    let state = InputState::new();
    let km = default_keymap();
    let (action, _) = handle_key(key(KeyCode::Char('k')), &AppMode::Normal, &state, &km);
    assert!(matches!(action, InputAction::Command(Command::CursorUp)));
}

#[test]
fn normal_h_go_up() {
    let state = InputState::new();
    let km = default_keymap();
    let (action, _) = handle_key(key(KeyCode::Char('h')), &AppMode::Normal, &state, &km);
    assert!(matches!(action, InputAction::Command(Command::GoUp)));
}

#[test]
fn normal_l_enter() {
    let state = InputState::new();
    let km = default_keymap();
    let (action, _) = handle_key(key(KeyCode::Char('l')), &AppMode::Normal, &state, &km);
    assert!(matches!(action, InputAction::Command(Command::Enter)));
}

#[test]
fn normal_enter_key_enters() {
    let state = InputState::new();
    let km = default_keymap();
    let (action, _) = handle_key(key(KeyCode::Enter), &AppMode::Normal, &state, &km);
    assert!(matches!(action, InputAction::Command(Command::Enter)));
}

#[test]
fn normal_arrow_down() {
    let state = InputState::new();
    let km = default_keymap();
    let (action, _) = handle_key(key(KeyCode::Down), &AppMode::Normal, &state, &km);
    assert!(matches!(action, InputAction::Command(Command::CursorDown)));
}

#[test]
fn normal_arrow_up() {
    let state = InputState::new();
    let km = default_keymap();
    let (action, _) = handle_key(key(KeyCode::Up), &AppMode::Normal, &state, &km);
    assert!(matches!(action, InputAction::Command(Command::CursorUp)));
}

#[test]
fn normal_arrow_left_go_up() {
    let state = InputState::new();
    let km = default_keymap();
    let (action, _) = handle_key(key(KeyCode::Left), &AppMode::Normal, &state, &km);
    assert!(matches!(action, InputAction::Command(Command::GoUp)));
}

#[test]
fn normal_arrow_right_enter() {
    let state = InputState::new();
    let km = default_keymap();
    let (action, _) = handle_key(key(KeyCode::Right), &AppMode::Normal, &state, &km);
    assert!(matches!(action, InputAction::Command(Command::Enter)));
}

// --- Normal mode: gg sequence ---

#[test]
fn normal_g_sets_pending() {
    let state = InputState::new();
    let km = default_keymap();
    let (action, new_state) =
        handle_key(key(KeyCode::Char('g')), &AppMode::Normal, &state, &km);
    assert!(matches!(action, InputAction::NoAction));
    assert!(new_state.pending_g);
}

#[test]
fn normal_gg_cursor_top() {
    let state = InputState { pending_g: true };
    let km = default_keymap();
    let (action, new_state) =
        handle_key(key(KeyCode::Char('g')), &AppMode::Normal, &state, &km);
    assert!(matches!(action, InputAction::CursorTop));
    assert!(!new_state.pending_g);
}

#[test]
fn normal_g_then_other_key_cancels() {
    let state = InputState { pending_g: true };
    let km = default_keymap();
    let (action, new_state) =
        handle_key(key(KeyCode::Char('j')), &AppMode::Normal, &state, &km);
    assert!(matches!(action, InputAction::NoAction));
    assert!(!new_state.pending_g);
}

#[test]
fn normal_capital_g_cursor_bottom() {
    let state = InputState::new();
    let km = default_keymap();
    let (action, _) = handle_key(key(KeyCode::Char('G')), &AppMode::Normal, &state, &km);
    assert!(matches!(action, InputAction::CursorBottom));
}

// --- Normal mode: toggles and modes ---

#[test]
fn normal_dot_toggle_hidden() {
    let state = InputState::new();
    let km = default_keymap();
    let (action, _) = handle_key(key(KeyCode::Char('.')), &AppMode::Normal, &state, &km);
    assert!(matches!(
        action,
        InputAction::Command(Command::ToggleHidden)
    ));
}

#[test]
fn normal_slash_enters_search() {
    let state = InputState::new();
    let km = default_keymap();
    let (action, _) = handle_key(key(KeyCode::Char('/')), &AppMode::Normal, &state, &km);
    assert!(matches!(action, InputAction::EnterMode(AppMode::Search(_))));
}

#[test]
fn normal_r_enters_rename() {
    let state = InputState::new();
    let km = default_keymap();
    let (action, _) = handle_key(key(KeyCode::Char('r')), &AppMode::Normal, &state, &km);
    assert!(matches!(action, InputAction::EnterMode(AppMode::Rename(_))));
}

#[test]
fn normal_d_request_delete() {
    let state = InputState::new();
    let km = default_keymap();
    let (action, _) = handle_key(key(KeyCode::Char('d')), &AppMode::Normal, &state, &km);
    assert!(matches!(action, InputAction::RequestDelete));
}

#[test]
fn normal_s_opens_sort_select() {
    let state = InputState::new();
    let km = default_keymap();
    let (action, _) = handle_key(key(KeyCode::Char('s')), &AppMode::Normal, &state, &km);
    assert!(matches!(
        action,
        InputAction::EnterMode(AppMode::SortSelect { .. })
    ));
}

#[test]
fn normal_question_enters_help() {
    let state = InputState::new();
    let km = default_keymap();
    let (action, _) = handle_key(key(KeyCode::Char('?')), &AppMode::Normal, &state, &km);
    assert!(matches!(action, InputAction::EnterMode(AppMode::Help)));
}

#[test]
fn normal_q_quits() {
    let state = InputState::new();
    let km = default_keymap();
    let (action, _) = handle_key(key(KeyCode::Char('q')), &AppMode::Normal, &state, &km);
    assert!(matches!(action, InputAction::Quit));
}

#[test]
fn normal_ctrl_c_quits() {
    let state = InputState::new();
    let km = default_keymap();
    let (action, _) = handle_key(
        key_with_mod(KeyCode::Char('c'), CONTROL),
        &AppMode::Normal,
        &state,
        &km,
    );
    assert!(matches!(action, InputAction::Quit));
}

#[test]
fn normal_unknown_key_none() {
    let state = InputState::new();
    let km = default_keymap();
    let (action, _) = handle_key(key(KeyCode::Char('z')), &AppMode::Normal, &state, &km);
    assert!(matches!(action, InputAction::NoAction));
}

// --- Normal mode: command palette ---

#[test]
fn normal_colon_opens_command_palette() {
    let state = InputState::new();
    let km = default_keymap();
    let (action, _) = handle_key(key(KeyCode::Char(':')), &AppMode::Normal, &state, &km);
    assert!(matches!(
        action,
        InputAction::EnterMode(AppMode::CommandPalette { .. })
    ));
}

// --- Custom keymap test ---

#[test]
fn custom_keymap_remaps_keys() {
    let km = Keymap::from_raw(vec![
        ("x".to_string(), "quit".to_string()),
        ("j".to_string(), "cursor_up".to_string()),
    ]);

    let state = InputState::new();
    // 'x' now quits
    let (action, _) = handle_key(key(KeyCode::Char('x')), &AppMode::Normal, &state, &km);
    assert!(matches!(action, InputAction::Quit));
    // 'j' now maps to cursor_up instead of cursor_down
    let (action, _) = handle_key(key(KeyCode::Char('j')), &AppMode::Normal, &state, &km);
    assert!(matches!(action, InputAction::Command(Command::CursorUp)));
}

// --- Search mode ---

#[test]
fn search_esc_returns_to_normal() {
    let state = InputState::new();
    let km = default_keymap();
    let (action, _) = handle_key(
        key(KeyCode::Esc),
        &AppMode::Search("query".to_string()),
        &state,
        &km,
    );
    assert!(matches!(action, InputAction::EnterMode(AppMode::Normal)));
}

#[test]
fn search_char_key_returns_search_char() {
    let state = InputState::new();
    let km = default_keymap();
    let (action, _) = handle_key(
        key(KeyCode::Char('x')),
        &AppMode::Search(String::new()),
        &state,
        &km,
    );
    assert!(matches!(action, InputAction::SearchChar('x')));
}

// --- Rename mode ---

#[test]
fn rename_esc_returns_to_normal() {
    let state = InputState::new();
    let km = default_keymap();
    let (action, _) = handle_key(
        key(KeyCode::Esc),
        &AppMode::Rename("name".to_string()),
        &state,
        &km,
    );
    assert!(matches!(action, InputAction::EnterMode(AppMode::Normal)));
}

// --- Confirm mode ---

#[test]
fn confirm_y_approves() {
    let state = InputState::new();
    let km = default_keymap();
    let (action, _) = handle_key(
        key(KeyCode::Char('y')),
        &AppMode::Confirm(ConfirmAction::Delete(vec![])),
        &state,
        &km,
    );
    assert!(matches!(action, InputAction::ConfirmApproved));
}

#[test]
fn confirm_capital_y_approves() {
    let state = InputState::new();
    let km = default_keymap();
    let (action, _) = handle_key(
        key(KeyCode::Char('Y')),
        &AppMode::Confirm(ConfirmAction::Delete(vec![])),
        &state,
        &km,
    );
    assert!(matches!(action, InputAction::ConfirmApproved));
}

#[test]
fn confirm_n_cancels() {
    let state = InputState::new();
    let km = default_keymap();
    let (action, _) = handle_key(
        key(KeyCode::Char('n')),
        &AppMode::Confirm(ConfirmAction::Delete(vec![])),
        &state,
        &km,
    );
    assert!(matches!(action, InputAction::EnterMode(AppMode::Normal)));
}

#[test]
fn confirm_esc_cancels() {
    let state = InputState::new();
    let km = default_keymap();
    let (action, _) = handle_key(
        key(KeyCode::Esc),
        &AppMode::Confirm(ConfirmAction::Delete(vec![])),
        &state,
        &km,
    );
    assert!(matches!(action, InputAction::EnterMode(AppMode::Normal)));
}

// --- Help mode ---

#[test]
fn help_esc_returns_to_normal() {
    let state = InputState::new();
    let km = default_keymap();
    let (action, _) = handle_key(key(KeyCode::Esc), &AppMode::Help, &state, &km);
    assert!(matches!(action, InputAction::EnterMode(AppMode::Normal)));
}

#[test]
fn help_q_returns_to_normal() {
    let state = InputState::new();
    let km = default_keymap();
    let (action, _) = handle_key(key(KeyCode::Char('q')), &AppMode::Help, &state, &km);
    assert!(matches!(action, InputAction::EnterMode(AppMode::Normal)));
}

#[test]
fn help_question_returns_to_normal() {
    let state = InputState::new();
    let km = default_keymap();
    let (action, _) = handle_key(key(KeyCode::Char('?')), &AppMode::Help, &state, &km);
    assert!(matches!(action, InputAction::EnterMode(AppMode::Normal)));
}

#[test]
fn help_other_key_none() {
    let state = InputState::new();
    let km = default_keymap();
    let (action, _) = handle_key(key(KeyCode::Char('j')), &AppMode::Help, &state, &km);
    assert!(matches!(action, InputAction::NoAction));
}

// --- Search mode: additional keys ---

#[test]
fn search_enter_confirms() {
    let state = InputState::new();
    let km = default_keymap();
    let (action, _) = handle_key(
        key(KeyCode::Enter),
        &AppMode::Search("query".to_string()),
        &state,
        &km,
    );
    assert!(matches!(action, InputAction::SearchConfirm));
}

#[test]
fn search_backspace_returns_search_backspace() {
    let state = InputState::new();
    let km = default_keymap();
    let (action, _) = handle_key(
        key(KeyCode::Backspace),
        &AppMode::Search("q".to_string()),
        &state,
        &km,
    );
    assert!(matches!(action, InputAction::SearchBackspace));
}

#[test]
fn search_down_arrow_moves_down() {
    let state = InputState::new();
    let km = default_keymap();
    let (action, _) = handle_key(
        key(KeyCode::Down),
        &AppMode::Search(String::new()),
        &state,
        &km,
    );
    assert!(matches!(action, InputAction::SearchDown));
}

#[test]
fn search_up_arrow_moves_up() {
    let state = InputState::new();
    let km = default_keymap();
    let (action, _) = handle_key(
        key(KeyCode::Up),
        &AppMode::Search(String::new()),
        &state,
        &km,
    );
    assert!(matches!(action, InputAction::SearchUp));
}

#[test]
fn search_unhandled_key_returns_none() {
    let state = InputState::new();
    let km = default_keymap();
    let (action, _) = handle_key(
        key(KeyCode::Tab),
        &AppMode::Search(String::new()),
        &state,
        &km,
    );
    assert!(matches!(action, InputAction::NoAction));
}

// --- Normal mode: bookmark keys ---

#[test]
fn normal_b_enters_bookmark_add() {
    let state = InputState::new();
    let km = default_keymap();
    let (action, _) = handle_key(key(KeyCode::Char('b')), &AppMode::Normal, &state, &km);
    assert!(matches!(
        action,
        InputAction::EnterMode(AppMode::BookmarkAdd(_))
    ));
}

#[test]
fn normal_quote_enters_bookmark_list() {
    let state = InputState::new();
    let km = default_keymap();
    let (action, _) = handle_key(key(KeyCode::Char('\'')), &AppMode::Normal, &state, &km);
    assert!(matches!(
        action,
        InputAction::EnterMode(AppMode::BookmarkList { selected: 0 })
    ));
}

// --- BookmarkAdd mode ---

#[test]
fn bookmark_add_esc_returns_to_normal() {
    let state = InputState::new();
    let km = default_keymap();
    let (action, _) = handle_key(
        key(KeyCode::Esc),
        &AppMode::BookmarkAdd(String::new()),
        &state,
        &km,
    );
    assert!(matches!(action, InputAction::EnterMode(AppMode::Normal)));
}

#[test]
fn bookmark_add_char_returns_bookmark_char() {
    let state = InputState::new();
    let km = default_keymap();
    let (action, _) = handle_key(
        key(KeyCode::Char('a')),
        &AppMode::BookmarkAdd(String::new()),
        &state,
        &km,
    );
    assert!(matches!(action, InputAction::BookmarkChar('a')));
}

#[test]
fn bookmark_add_enter_confirms() {
    let state = InputState::new();
    let km = default_keymap();
    let (action, _) = handle_key(
        key(KeyCode::Enter),
        &AppMode::BookmarkAdd("label".to_string()),
        &state,
        &km,
    );
    assert!(matches!(action, InputAction::BookmarkConfirm));
}

#[test]
fn bookmark_add_backspace_returns_bookmark_backspace() {
    let state = InputState::new();
    let km = default_keymap();
    let (action, _) = handle_key(
        key(KeyCode::Backspace),
        &AppMode::BookmarkAdd("lab".to_string()),
        &state,
        &km,
    );
    assert!(matches!(action, InputAction::BookmarkBackspace));
}

#[test]
fn bookmark_add_unhandled_key_returns_none() {
    let state = InputState::new();
    let km = default_keymap();
    let (action, _) = handle_key(
        key(KeyCode::Tab),
        &AppMode::BookmarkAdd(String::new()),
        &state,
        &km,
    );
    assert!(matches!(action, InputAction::NoAction));
}

// --- BookmarkList mode ---

#[test]
fn bookmark_list_esc_returns_to_normal() {
    let state = InputState::new();
    let km = default_keymap();
    let (action, _) = handle_key(
        key(KeyCode::Esc),
        &AppMode::BookmarkList { selected: 0 },
        &state,
        &km,
    );
    assert!(matches!(action, InputAction::EnterMode(AppMode::Normal)));
}

#[test]
fn bookmark_list_q_returns_to_normal() {
    let state = InputState::new();
    let km = default_keymap();
    let (action, _) = handle_key(
        key(KeyCode::Char('q')),
        &AppMode::BookmarkList { selected: 0 },
        &state,
        &km,
    );
    assert!(matches!(action, InputAction::EnterMode(AppMode::Normal)));
}

#[test]
fn bookmark_list_j_moves_down() {
    let state = InputState::new();
    let km = default_keymap();
    let (action, _) = handle_key(
        key(KeyCode::Char('j')),
        &AppMode::BookmarkList { selected: 0 },
        &state,
        &km,
    );
    assert!(matches!(action, InputAction::BookmarkDown));
}

#[test]
fn bookmark_list_down_arrow_moves_down() {
    let state = InputState::new();
    let km = default_keymap();
    let (action, _) = handle_key(
        key(KeyCode::Down),
        &AppMode::BookmarkList { selected: 0 },
        &state,
        &km,
    );
    assert!(matches!(action, InputAction::BookmarkDown));
}

#[test]
fn bookmark_list_k_moves_up() {
    let state = InputState::new();
    let km = default_keymap();
    let (action, _) = handle_key(
        key(KeyCode::Char('k')),
        &AppMode::BookmarkList { selected: 1 },
        &state,
        &km,
    );
    assert!(matches!(action, InputAction::BookmarkUp));
}

#[test]
fn bookmark_list_up_arrow_moves_up() {
    let state = InputState::new();
    let km = default_keymap();
    let (action, _) = handle_key(
        key(KeyCode::Up),
        &AppMode::BookmarkList { selected: 1 },
        &state,
        &km,
    );
    assert!(matches!(action, InputAction::BookmarkUp));
}

#[test]
fn bookmark_list_enter_selects() {
    let state = InputState::new();
    let km = default_keymap();
    let (action, _) = handle_key(
        key(KeyCode::Enter),
        &AppMode::BookmarkList { selected: 0 },
        &state,
        &km,
    );
    assert!(matches!(action, InputAction::BookmarkSelect));
}

#[test]
fn bookmark_list_l_selects() {
    let state = InputState::new();
    let km = default_keymap();
    let (action, _) = handle_key(
        key(KeyCode::Char('l')),
        &AppMode::BookmarkList { selected: 0 },
        &state,
        &km,
    );
    assert!(matches!(action, InputAction::BookmarkSelect));
}

#[test]
fn bookmark_list_d_deletes() {
    let state = InputState::new();
    let km = default_keymap();
    let (action, _) = handle_key(
        key(KeyCode::Char('d')),
        &AppMode::BookmarkList { selected: 0 },
        &state,
        &km,
    );
    assert!(matches!(action, InputAction::BookmarkDelete));
}

#[test]
fn bookmark_list_unhandled_key_returns_none() {
    let state = InputState::new();
    let km = default_keymap();
    let (action, _) = handle_key(
        key(KeyCode::Tab),
        &AppMode::BookmarkList { selected: 0 },
        &state,
        &km,
    );
    assert!(matches!(action, InputAction::NoAction));
}

// --- Normal mode: recent files ---

#[test]
fn normal_capital_r_enters_recent_files() {
    let state = InputState::new();
    let km = default_keymap();
    let (action, _) = handle_key(key(KeyCode::Char('R')), &AppMode::Normal, &state, &km);
    assert!(matches!(
        action,
        InputAction::EnterMode(AppMode::RecentFiles)
    ));
}

// --- RecentFiles mode ---

#[test]
fn recent_esc_returns_to_normal() {
    let state = InputState::new();
    let km = default_keymap();
    let (action, _) = handle_key(key(KeyCode::Esc), &AppMode::RecentFiles, &state, &km);
    assert!(matches!(action, InputAction::EnterMode(AppMode::Normal)));
}

#[test]
fn recent_q_returns_to_normal() {
    let state = InputState::new();
    let km = default_keymap();
    let (action, _) = handle_key(key(KeyCode::Char('q')), &AppMode::RecentFiles, &state, &km);
    assert!(matches!(action, InputAction::EnterMode(AppMode::Normal)));
}

#[test]
fn recent_j_moves_down() {
    let state = InputState::new();
    let km = default_keymap();
    let (action, _) = handle_key(key(KeyCode::Char('j')), &AppMode::RecentFiles, &state, &km);
    assert!(matches!(action, InputAction::RecentDown));
}

#[test]
fn recent_down_arrow_moves_down() {
    let state = InputState::new();
    let km = default_keymap();
    let (action, _) = handle_key(key(KeyCode::Down), &AppMode::RecentFiles, &state, &km);
    assert!(matches!(action, InputAction::RecentDown));
}

#[test]
fn recent_k_moves_up() {
    let state = InputState::new();
    let km = default_keymap();
    let (action, _) = handle_key(key(KeyCode::Char('k')), &AppMode::RecentFiles, &state, &km);
    assert!(matches!(action, InputAction::RecentUp));
}

#[test]
fn recent_up_arrow_moves_up() {
    let state = InputState::new();
    let km = default_keymap();
    let (action, _) = handle_key(key(KeyCode::Up), &AppMode::RecentFiles, &state, &km);
    assert!(matches!(action, InputAction::RecentUp));
}

#[test]
fn recent_enter_confirms() {
    let state = InputState::new();
    let km = default_keymap();
    let (action, _) = handle_key(key(KeyCode::Enter), &AppMode::RecentFiles, &state, &km);
    assert!(matches!(action, InputAction::RecentConfirm));
}

#[test]
fn recent_l_confirms() {
    let state = InputState::new();
    let km = default_keymap();
    let (action, _) = handle_key(key(KeyCode::Char('l')), &AppMode::RecentFiles, &state, &km);
    assert!(matches!(action, InputAction::RecentConfirm));
}

#[test]
fn recent_unhandled_key_returns_none() {
    let state = InputState::new();
    let km = default_keymap();
    let (action, _) = handle_key(key(KeyCode::Tab), &AppMode::RecentFiles, &state, &km);
    assert!(matches!(action, InputAction::NoAction));
}

// --- InputState ---

#[test]
fn input_state_new_not_pending() {
    let state = InputState::new();
    assert!(!state.pending_g);
}

#[test]
fn input_state_default_not_pending() {
    let state = InputState::default();
    assert!(!state.pending_g);
}

// --- Normal mode: duplicate files ---

#[test]
fn normal_capital_d_enters_duplicate_files() {
    let state = InputState::new();
    let km = default_keymap();
    let (action, _) = handle_key(key(KeyCode::Char('D')), &AppMode::Normal, &state, &km);
    assert!(matches!(
        action,
        InputAction::EnterMode(AppMode::DuplicateFiles)
    ));
}

// --- DuplicateFiles mode ---

#[test]
fn duplicate_esc_returns_to_normal() {
    let state = InputState::new();
    let km = default_keymap();
    let (action, _) = handle_key(key(KeyCode::Esc), &AppMode::DuplicateFiles, &state, &km);
    assert!(matches!(action, InputAction::EnterMode(AppMode::Normal)));
}

#[test]
fn duplicate_q_returns_to_normal() {
    let state = InputState::new();
    let km = default_keymap();
    let (action, _) = handle_key(
        key(KeyCode::Char('q')),
        &AppMode::DuplicateFiles,
        &state,
        &km,
    );
    assert!(matches!(action, InputAction::EnterMode(AppMode::Normal)));
}

#[test]
fn duplicate_j_moves_down() {
    let state = InputState::new();
    let km = default_keymap();
    let (action, _) = handle_key(
        key(KeyCode::Char('j')),
        &AppMode::DuplicateFiles,
        &state,
        &km,
    );
    assert!(matches!(action, InputAction::DuplicateDown));
}

#[test]
fn duplicate_down_arrow_moves_down() {
    let state = InputState::new();
    let km = default_keymap();
    let (action, _) = handle_key(key(KeyCode::Down), &AppMode::DuplicateFiles, &state, &km);
    assert!(matches!(action, InputAction::DuplicateDown));
}

#[test]
fn duplicate_k_moves_up() {
    let state = InputState::new();
    let km = default_keymap();
    let (action, _) = handle_key(
        key(KeyCode::Char('k')),
        &AppMode::DuplicateFiles,
        &state,
        &km,
    );
    assert!(matches!(action, InputAction::DuplicateUp));
}

#[test]
fn duplicate_up_arrow_moves_up() {
    let state = InputState::new();
    let km = default_keymap();
    let (action, _) = handle_key(key(KeyCode::Up), &AppMode::DuplicateFiles, &state, &km);
    assert!(matches!(action, InputAction::DuplicateUp));
}

#[test]
fn duplicate_enter_confirms() {
    let state = InputState::new();
    let km = default_keymap();
    let (action, _) = handle_key(key(KeyCode::Enter), &AppMode::DuplicateFiles, &state, &km);
    assert!(matches!(action, InputAction::DuplicateConfirm));
}

#[test]
fn duplicate_l_confirms() {
    let state = InputState::new();
    let km = default_keymap();
    let (action, _) = handle_key(
        key(KeyCode::Char('l')),
        &AppMode::DuplicateFiles,
        &state,
        &km,
    );
    assert!(matches!(action, InputAction::DuplicateConfirm));
}

#[test]
fn duplicate_d_deletes() {
    let state = InputState::new();
    let km = default_keymap();
    let (action, _) = handle_key(
        key(KeyCode::Char('d')),
        &AppMode::DuplicateFiles,
        &state,
        &km,
    );
    assert!(matches!(action, InputAction::DuplicateDelete));
}

#[test]
fn duplicate_unhandled_key_returns_none() {
    let state = InputState::new();
    let km = default_keymap();
    let (action, _) = handle_key(key(KeyCode::Tab), &AppMode::DuplicateFiles, &state, &km);
    assert!(matches!(action, InputAction::NoAction));
}

// --- action_to_input_action ---

#[test]
fn action_cursor_down() {
    assert!(matches!(
        action_to_input_action(Action::CursorDown),
        InputAction::Command(Command::CursorDown)
    ));
}

#[test]
fn action_quit() {
    assert!(matches!(
        action_to_input_action(Action::Quit),
        InputAction::Quit
    ));
}

#[test]
fn action_command_palette() {
    assert!(matches!(
        action_to_input_action(Action::CommandPalette),
        InputAction::EnterMode(AppMode::CommandPalette { .. })
    ));
}

// --- Command Palette mode ---

#[test]
fn command_palette_esc_cancels() {
    let state = InputState::new();
    let km = default_keymap();
    let mode = AppMode::CommandPalette {
        query: String::new(),
        selected: 0,
    };
    let (action, _) = handle_key(key(KeyCode::Esc), &mode, &state, &km);
    assert!(matches!(action, InputAction::CommandPaletteCancel));
}

#[test]
fn command_palette_enter_confirms() {
    let state = InputState::new();
    let km = default_keymap();
    let mode = AppMode::CommandPalette {
        query: "quit".to_string(),
        selected: 0,
    };
    let (action, _) = handle_key(key(KeyCode::Enter), &mode, &state, &km);
    assert!(matches!(action, InputAction::CommandPaletteConfirm));
}

#[test]
fn command_palette_char_input() {
    let state = InputState::new();
    let km = default_keymap();
    let mode = AppMode::CommandPalette {
        query: String::new(),
        selected: 0,
    };
    let (action, _) = handle_key(key(KeyCode::Char('q')), &mode, &state, &km);
    assert!(matches!(action, InputAction::CommandPaletteChar('q')));
}

#[test]
fn command_palette_backspace() {
    let state = InputState::new();
    let km = default_keymap();
    let mode = AppMode::CommandPalette {
        query: "q".to_string(),
        selected: 0,
    };
    let (action, _) = handle_key(key(KeyCode::Backspace), &mode, &state, &km);
    assert!(matches!(action, InputAction::CommandPaletteBackspace));
}

#[test]
fn command_palette_down() {
    let state = InputState::new();
    let km = default_keymap();
    let mode = AppMode::CommandPalette {
        query: String::new(),
        selected: 0,
    };
    let (action, _) = handle_key(key(KeyCode::Down), &mode, &state, &km);
    assert!(matches!(action, InputAction::CommandPaletteDown));
}

#[test]
fn command_palette_up() {
    let state = InputState::new();
    let km = default_keymap();
    let mode = AppMode::CommandPalette {
        query: String::new(),
        selected: 1,
    };
    let (action, _) = handle_key(key(KeyCode::Up), &mode, &state, &km);
    assert!(matches!(action, InputAction::CommandPaletteUp));
}

// --- Remote connect action mapping ---

#[test]
fn remote_connect_action_mapping() {
    let action = action_to_input_action(Action::RemoteConnect);
    assert!(matches!(
        action,
        InputAction::EnterMode(AppMode::RemoteConnect)
    ));
}

#[test]
fn handle_remote_connect_esc_cancels() {
    let (action, _) = handle_remote_connect_key(key(KeyCode::Esc));
    assert!(matches!(action, InputAction::RemoteConnectCancel));
}

#[test]
fn handle_remote_connect_enter_confirms() {
    let (action, _) = handle_remote_connect_key(key(KeyCode::Enter));
    assert!(matches!(action, InputAction::RemoteConnectConfirm));
}

#[test]
fn handle_remote_connect_tab_next_field() {
    let (action, _) = handle_remote_connect_key(key(KeyCode::Tab));
    assert!(matches!(action, InputAction::RemoteConnectNextField));
}

#[test]
fn handle_remote_connect_backtab_prev_field() {
    let (action, _) =
        handle_remote_connect_key(key_with_mod(KeyCode::BackTab, SHIFT));
    assert!(matches!(action, InputAction::RemoteConnectPrevField));
}

#[test]
fn handle_remote_connect_char_input() {
    let (action, _) = handle_remote_connect_key(key(KeyCode::Char('a')));
    assert!(matches!(action, InputAction::RemoteConnectChar('a')));
}

#[test]
fn handle_remote_connect_backspace() {
    let (action, _) = handle_remote_connect_key(key(KeyCode::Backspace));
    assert!(matches!(action, InputAction::RemoteConnectBackspace));
}


//! Key input: maps key presses to actions according to the current mode.
//!
//! In normal mode character keys go through the [`Keymap`]; arrows, Enter,
//! Ctrl+C, Ctrl+T and the `gg` sequence are fixed. The other modes have
//! fixed keys.

use vstd::prelude::*;
use crate::action::Action;
use crate::config::keymap::Keymap;
use crate::event::Command;
use crate::text::string_from_chars;

verus! {

/// A key, as the terminal reports it.
#[derive(Debug, Clone, Copy, PartialEq, Eq, Structural)]
pub enum KeyCode {
    Char(char),
    Enter,
    Esc,
    Backspace,
    Tab,
    BackTab,
    Up,
    Down,
    Left,
    Right,
    Home,
    End,
    PageUp,
    PageDown,
    Delete,
    Insert,
    F(u8),
    Other,
}

/// Modifier bit of the Shift key.
pub const SHIFT: u8 = 1;
/// Modifier bit of the Control key.
pub const CONTROL: u8 = 2;
/// Modifier bit of the Alt key.
pub const ALT: u8 = 4;

/// A key press: the key and the modifier bits held with it.
#[derive(Debug, Clone, Copy, PartialEq, Eq, Structural)]
pub struct KeyEvent {
    pub code: KeyCode,
    pub modifiers: u8,
}

impl KeyEvent {
    /// A press of `code` with the given modifier bits.
    pub fn new(code: KeyCode, modifiers: u8) -> (k: Self)
        ensures
            k.code == code,
            k.modifiers == modifiers,
    {
        KeyEvent { code, modifiers }
    }

    /// Control is held.
    pub open spec fn ctrl(self) -> bool {
        self.modifiers & CONTROL != 0
    }
}

/// What is pending user confirmation.
#[derive(Debug, Clone)]
pub enum ConfirmAction {
    Delete(Vec<String>),
    DeleteDuplicate(String),
}

/// Application mode: determines how input is routed.
#[derive(Debug, Clone)]
pub enum AppMode {
    Normal,
    Search(String),
    Rename(String),
    Confirm(ConfirmAction),
    Help,
    /// Adding a bookmark: the label being typed.
    BookmarkAdd(String),
    /// Browsing the bookmark list.
    BookmarkList { selected: usize },
    /// Viewing recently changed files.
    RecentFiles,
    /// Viewing duplicate files.
    DuplicateFiles,
    /// Sort field selection popup.
    SortSelect { selected: usize },
    /// Full-screen file preview.
    Pager { scroll: usize },
    /// Command palette.
    CommandPalette { query: String, selected: usize },
    /// Remote connection form.
    RemoteConnect,
    /// Keyboard input goes to the embedded terminal.
    Terminal,
}

/// Actions that can result from a key press.
#[derive(Debug)]
pub enum InputAction {
    Command(Command),
    EnterMode(AppMode),
    Quit,
    CursorTop,
    CursorBottom,
    GoHome,
    RequestDelete,
    ConfirmApproved,
    SearchChar(char),
    SearchBackspace,
    SearchConfirm,
    SearchDown,
    SearchUp,
    BookmarkChar(char),
    BookmarkBackspace,
    BookmarkConfirm,
    BookmarkDown,
    BookmarkUp,
    BookmarkSelect,
    BookmarkDelete,
    RecentDown,
    RecentUp,
    RecentConfirm,
    DuplicateDown,
    DuplicateUp,
    DuplicateConfirm,
    DuplicateDelete,
    SortSelectDown,
    SortSelectUp,
    SortSelectConfirm,
    SortSetAscending,
    SortSetDescending,
    EditFile,
    EnterPager,
    PagerDown,
    PagerUp,
    PagerHalfDown,
    PagerHalfUp,
    PagerTop,
    PagerBottom,
    CommandPaletteChar(char),
    CommandPaletteBackspace,
    CommandPaletteDown,
    CommandPaletteUp,
    CommandPaletteConfirm,
    CommandPaletteCancel,
    PanelToggleDual,
    PanelFocus(usize),
    RemoteConnectChar(char),
    RemoteConnectBackspace,
    RemoteConnectNextField,
    RemoteConnectPrevField,
    RemoteConnectConfirm,
    RemoteConnectCancel,
    TerminalInput(KeyEvent),
    TerminalToggle,
    TerminalUnfocus,
    NoAction,
}

/// Tracks state for multi-key sequences like `gg`.
#[derive(Debug)]
pub struct InputState {
    pub pending_g: bool,
}

impl InputState {
    /// No key sequence pending.
    pub fn new() -> (s: Self)
        ensures
            !s.pending_g,
    {
        InputState { pending_g: false }
    }
}

impl Default for InputState {
    fn default() -> (s: Self)
        ensures
            !s.pending_g,
    {
        InputState::new()
    }
}

/// `r` is the input action that `action` stands for.
pub open spec fn action_input(action: Action, r: InputAction) -> bool {
    match action {
        Action::CursorDown => r == InputAction::Command(Command::CursorDown),
        Action::CursorUp => r == InputAction::Command(Command::CursorUp),
        Action::CursorTop => r == InputAction::CursorTop,
        Action::CursorBottom => r == InputAction::CursorBottom,
        Action::GoParent => r == InputAction::Command(Command::GoUp),
        Action::GoHome => r == InputAction::GoHome,
        Action::EnterDir | Action::Open => r == InputAction::Command(Command::Enter),
        Action::GoBack => r == InputAction::Command(Command::GoBack),
        Action::GoForward => r == InputAction::Command(Command::GoForward),
        Action::Refresh => r == InputAction::Command(Command::Refresh),
        Action::Delete => r == InputAction::RequestDelete,
        Action::Rename => r matches InputAction::EnterMode(AppMode::Rename(s)) && s@.len() == 0,
        Action::ToggleHidden => r == InputAction::Command(Command::ToggleHidden),
        Action::Search => r matches InputAction::EnterMode(AppMode::Search(s)) && s@.len() == 0,
        Action::SortCycle => r == InputAction::EnterMode(AppMode::SortSelect { selected: 0 }),
        Action::BookmarkAdd => r matches InputAction::EnterMode(AppMode::BookmarkAdd(s)) && s@.len() == 0,
        Action::BookmarkGo => r == InputAction::EnterMode(AppMode::BookmarkList { selected: 0 }),
        Action::RecentFiles => r == InputAction::EnterMode(AppMode::RecentFiles),
        Action::DuplicateFiles => r == InputAction::EnterMode(AppMode::DuplicateFiles),
        Action::Pager => r == InputAction::EnterPager,
        Action::EditFile => r == InputAction::EditFile,
        Action::Help => r == InputAction::EnterMode(AppMode::Help),
        Action::Quit => r == InputAction::Quit,
        Action::CommandPalette => r matches InputAction::EnterMode(AppMode::CommandPalette { query, selected })
            && query@.len() == 0 && selected == 0,
        Action::RemoteConnect => r == InputAction::EnterMode(AppMode::RemoteConnect),
        Action::ToggleTerminal => r == InputAction::TerminalToggle,
        Action::PanelToggleDual => r == InputAction::PanelToggleDual,
        Action::PanelFocusLeft => r == InputAction::PanelFocus(0),
        Action::PanelFocusRight => r == InputAction::PanelFocus(1),
        _ => r == InputAction::NoAction,
    }
}

/// Converts an [`Action`] to the corresponding [`InputAction`]; used by
/// the command palette to run the action it confirms.
pub fn resolve_action(action: Action) -> (r: InputAction)
    ensures
        action_input(action, r),
{
    action_to_input_action(action)
}

/// Converts an [`Action`] to the corresponding [`InputAction`]. Copy,
/// paste, remote disconnect and the tab actions have no input action of
/// their own.
pub fn action_to_input_action(action: Action) -> (r: InputAction)
    ensures
        action_input(action, r),
{
    match action {
        Action::CursorDown => InputAction::Command(Command::CursorDown),
        Action::CursorUp => InputAction::Command(Command::CursorUp),
        Action::CursorTop => InputAction::CursorTop,
        Action::CursorBottom => InputAction::CursorBottom,
        Action::GoParent => InputAction::Command(Command::GoUp),
        Action::GoHome => InputAction::GoHome,
        Action::EnterDir | Action::Open => InputAction::Command(Command::Enter),
        Action::GoBack => InputAction::Command(Command::GoBack),
        Action::GoForward => InputAction::Command(Command::GoForward),
        Action::Refresh => InputAction::Command(Command::Refresh),
        Action::Delete => InputAction::RequestDelete,
        Action::Rename => InputAction::EnterMode(AppMode::Rename(String::new())),
        Action::ToggleHidden => InputAction::Command(Command::ToggleHidden),
        Action::Search => InputAction::EnterMode(AppMode::Search(String::new())),
        Action::SortCycle => InputAction::EnterMode(AppMode::SortSelect { selected: 0 }),
        Action::BookmarkAdd => InputAction::EnterMode(AppMode::BookmarkAdd(String::new())),
        Action::BookmarkGo => InputAction::EnterMode(AppMode::BookmarkList { selected: 0 }),
        Action::RecentFiles => InputAction::EnterMode(AppMode::RecentFiles),
        Action::DuplicateFiles => InputAction::EnterMode(AppMode::DuplicateFiles),
        Action::Pager => InputAction::EnterPager,
        Action::EditFile => InputAction::EditFile,
        Action::Help => InputAction::EnterMode(AppMode::Help),
        Action::Quit => InputAction::Quit,
        Action::CommandPalette => InputAction::EnterMode(AppMode::CommandPalette { query: String::new(), selected: 0 }),
        Action::RemoteConnect => InputAction::EnterMode(AppMode::RemoteConnect),
        Action::ToggleTerminal => InputAction::TerminalToggle,
        Action::PanelToggleDual => InputAction::PanelToggleDual,
        Action::PanelFocusLeft => InputAction::PanelFocus(0),
        Action::PanelFocusRight => InputAction::PanelFocus(1),
        _ => InputAction::NoAction,
    }
}

/// `r` is what the keymap makes of `key`: the bound action, or nothing.
pub open spec fn keymap_input(km: Map<Seq<char>, Action>, key: Seq<char>, r: InputAction) -> bool {
    if km.contains_key(key) {
        action_input(km[key], r)
    } else {
        r == InputAction::NoAction
    }
}

/// The normal-mode result of `key` with no `g` pending.
pub open spec fn normal_input(key: KeyEvent, km: Map<Seq<char>, Action>, r: (InputAction, InputState)) -> bool {
    match key.code {
        KeyCode::Down => r.0 == InputAction::Command(Command::CursorDown) && !r.1.pending_g,
        KeyCode::Up => r.0 == InputAction::Command(Command::CursorUp) && !r.1.pending_g,
        KeyCode::Left => r.0 == InputAction::Command(Command::GoUp) && !r.1.pending_g,
        KeyCode::Right | KeyCode::Enter => r.0 == InputAction::Command(Command::Enter) && !r.1.pending_g,
        KeyCode::Char(c) => if c == 'c' && key.ctrl() {
            r.0 == InputAction::Quit && !r.1.pending_g
        } else if c == 't' && key.ctrl() {
            r.0 == InputAction::TerminalToggle && !r.1.pending_g
        } else if c == 'g' {
            r.0 == InputAction::NoAction && r.1.pending_g
        } else {
            keymap_input(km, seq![c], r.0) && !r.1.pending_g
        },
        KeyCode::Tab => keymap_input(km, "Tab"@, r.0) && !r.1.pending_g,
        _ => r.0 == InputAction::NoAction && !r.1.pending_g,
    }
}

/// The fixed keys of the modes other than normal, pager and terminal.
pub open spec fn modal_input(key: KeyEvent, mode: AppMode, r: InputAction) -> bool {
    let c = key.code;
    match mode {
        AppMode::Search(_) => match c {
            KeyCode::Esc => r == InputAction::EnterMode(AppMode::Normal),
            KeyCode::Enter => r == InputAction::SearchConfirm,
            KeyCode::Backspace => r == InputAction::SearchBackspace,
            KeyCode::Down => r == InputAction::SearchDown,
            KeyCode::Up => r == InputAction::SearchUp,
            KeyCode::Char(ch) => r == InputAction::SearchChar(ch),
            _ => r == InputAction::NoAction,
        },
        AppMode::Rename(_) => if c == KeyCode::Esc {
            r == InputAction::EnterMode(AppMode::Normal)
        } else {
            r == InputAction::NoAction
        },
        AppMode::Confirm(_) => if c == KeyCode::Char('y') || c == KeyCode::Char('Y') {
            r == InputAction::ConfirmApproved
        } else if c == KeyCode::Char('n') || c == KeyCode::Char('N') || c == KeyCode::Esc {
            r == InputAction::EnterMode(AppMode::Normal)
        } else {
            r == InputAction::NoAction
        },
        AppMode::Help => if c == KeyCode::Esc || c == KeyCode::Char('q') || c == KeyCode::Char('?') {
            r == InputAction::EnterMode(AppMode::Normal)
        } else {
            r == InputAction::NoAction
        },
        AppMode::BookmarkAdd(_) => match c {
            KeyCode::Esc => r == InputAction::EnterMode(AppMode::Normal),
            KeyCode::Enter => r == InputAction::BookmarkConfirm,
            KeyCode::Backspace => r == InputAction::BookmarkBackspace,
            KeyCode::Char(ch) => r == InputAction::BookmarkChar(ch),
            _ => r == InputAction::NoAction,
        },
        AppMode::BookmarkList { .. } => if c == KeyCode::Esc || c == KeyCode::Char('q') {
            r == InputAction::EnterMode(AppMode::Normal)
        } else if c == KeyCode::Char('j') || c == KeyCode::Down {
            r == InputAction::BookmarkDown
        } else if c == KeyCode::Char('k') || c == KeyCode::Up {
            r == InputAction::BookmarkUp
        } else if c == KeyCode::Enter || c == KeyCode::Char('l') {
            r == InputAction::BookmarkSelect
        } else if c == KeyCode::Char('d') {
            r == InputAction::BookmarkDelete
        } else {
            r == InputAction::NoAction
        },
        AppMode::RecentFiles => if c == KeyCode::Esc || c == KeyCode::Char('q') {
            r == InputAction::EnterMode(AppMode::Normal)
        } else if c == KeyCode::Char('j') || c == KeyCode::Down {
            r == InputAction::RecentDown
        } else if c == KeyCode::Char('k') || c == KeyCode::Up {
            r == InputAction::RecentUp
        } else if c == KeyCode::Enter || c == KeyCode::Char('l') {
            r == InputAction::RecentConfirm
        } else {
            r == InputAction::NoAction
        },
        AppMode::DuplicateFiles => if c == KeyCode::Esc || c == KeyCode::Char('q') {
            r == InputAction::EnterMode(AppMode::Normal)
        } else if c == KeyCode::Char('j') || c == KeyCode::Down {
            r == InputAction::DuplicateDown
        } else if c == KeyCode::Char('k') || c == KeyCode::Up {
            r == InputAction::DuplicateUp
        } else if c == KeyCode::Enter || c == KeyCode::Char('l') {
            r == InputAction::DuplicateConfirm
        } else if c == KeyCode::Char('d') {
            r == InputAction::DuplicateDelete
        } else {
            r == InputAction::NoAction
        },
        AppMode::SortSelect { .. } => if c == KeyCode::Esc || c == KeyCode::Char('q') {
            r == InputAction::EnterMode(AppMode::Normal)
        } else if c == KeyCode::Char('j') || c == KeyCode::Down {
            r == InputAction::SortSelectDown
        } else if c == KeyCode::Char('k') || c == KeyCode::Up {
            r == InputAction::SortSelectUp
        } else if c == KeyCode::Enter {
            r == InputAction::SortSelectConfirm
        } else if c == KeyCode::Char('a') {
            r == InputAction::SortSetAscending
        } else if c == KeyCode::Char('d') {
            r == InputAction::SortSetDescending
        } else {
            r == InputAction::NoAction
        },
        AppMode::CommandPalette { .. } => match c {
            KeyCode::Esc => r == InputAction::CommandPaletteCancel,
            KeyCode::Enter => r == InputAction::CommandPaletteConfirm,
            KeyCode::Backspace => r == InputAction::CommandPaletteBackspace,
            KeyCode::Down => r == InputAction::CommandPaletteDown,
            KeyCode::Up => r == InputAction::CommandPaletteUp,
            KeyCode::Char(ch) => r == InputAction::CommandPaletteChar(ch),
            _ => r == InputAction::NoAction,
        },
        AppMode::RemoteConnect => match c {
            KeyCode::Esc => r == InputAction::RemoteConnectCancel,
            KeyCode::Enter => r == InputAction::RemoteConnectConfirm,
            KeyCode::Tab => r == InputAction::RemoteConnectNextField,
            KeyCode::BackTab => r == InputAction::RemoteConnectPrevField,
            KeyCode::Backspace => r == InputAction::RemoteConnectBackspace,
            KeyCode::Char(ch) => r == InputAction::RemoteConnectChar(ch),
            _ => r == InputAction::NoAction,
        },
        _ => true,
    }
}

/// The pager result of `key` with no `g` pending.
pub open spec fn pager_input(key: KeyEvent, r: (InputAction, InputState)) -> bool {
    let c = key.code;
    if c == KeyCode::Char('g') {
        r.0 == InputAction::NoAction && r.1.pending_g
    } else {
        !r.1.pending_g && if c == KeyCode::Esc || c == KeyCode::Char('q') {
            r.0 == InputAction::EnterMode(AppMode::Normal)
        } else if c == KeyCode::Char('j') || c == KeyCode::Down {
            r.0 == InputAction::PagerDown
        } else if c == KeyCode::Char('k') || c == KeyCode::Up {
            r.0 == InputAction::PagerUp
        } else if c == KeyCode::Char('d') {
            r.0 == InputAction::PagerHalfDown
        } else if c == KeyCode::Char('u') {
            r.0 == InputAction::PagerHalfUp
        } else if c == KeyCode::Char('G') {
            r.0 == InputAction::PagerBottom
        } else {
            r.0 == InputAction::NoAction
        }
    }
}

/// The result of a key press in `mode` with `state`, under the keymap `km`.
pub open spec fn key_input(
    key: KeyEvent,
    mode: AppMode,
    state: InputState,
    km: Map<Seq<char>, Action>,
    r: (InputAction, InputState),
) -> bool {
    match mode {
        AppMode::Normal => if state.pending_g {
            !r.1.pending_g && r.0 == if key.code == KeyCode::Char('g') {
                InputAction::CursorTop
            } else {
                InputAction::NoAction
            }
        } else {
            normal_input(key, km, r)
        },
        AppMode::Pager { .. } => if state.pending_g {
            !r.1.pending_g && r.0 == if key.code == KeyCode::Char('g') {
                InputAction::PagerTop
            } else {
                InputAction::NoAction
            }
        } else {
            pager_input(key, r)
        },
        AppMode::Terminal => !r.1.pending_g && r.0 == if (key.ctrl() && key.code == KeyCode::Char('t')) || key.code
            == KeyCode::Esc {
            InputAction::TerminalUnfocus
        } else {
            InputAction::TerminalInput(key)
        },
        _ => !r.1.pending_g && modal_input(key, mode, r.0),
    }
}

/// What the keymap makes of the key named `name`.
fn keymap_action(keymap: &Keymap, name: &str) -> (r: InputAction)
    requires
        keymap.wf(),
    ensures
        keymap_input(keymap@, name@, r),
{
    match keymap.action_for_key(name) {
        Some(action) => action_to_input_action(action),
        None => InputAction::NoAction,
    }
}

fn handle_normal_key(key: &KeyEvent, keymap: &Keymap) -> (r: (InputAction, InputState))
    requires
        keymap.wf(),
    ensures
        normal_input(*key, keymap@, r),
{
    let new_state = InputState { pending_g: false };
    let ctrl = key.modifiers & CONTROL != 0;
    match key.code {
        KeyCode::Down => (InputAction::Command(Command::CursorDown), new_state),
        KeyCode::Up => (InputAction::Command(Command::CursorUp), new_state),
        KeyCode::Left => (InputAction::Command(Command::GoUp), new_state),
        KeyCode::Right | KeyCode::Enter => (InputAction::Command(Command::Enter), new_state),
        KeyCode::Char(c) => {
            if c == 'c' && ctrl {
                (InputAction::Quit, new_state)
            } else if c == 't' && ctrl {
                (InputAction::TerminalToggle, new_state)
            } else if c == 'g' {
                (InputAction::NoAction, InputState { pending_g: true })
            } else {
                let one = [c];
                let name = string_from_chars(one.as_slice());
                proof {
                    assert(one@ =~= seq![c]);
                }
                (keymap_action(keymap, name.as_str()), new_state)
            }
        },
        KeyCode::Tab => (keymap_action(keymap, "Tab"), new_state),
        _ => (InputAction::NoAction, new_state),
    }
}

fn modal_key(key: &KeyEvent, mode: &AppMode) -> (r: InputAction)
    requires
        !(mode is RemoteConnect),
    ensures
        modal_input(*key, *mode, r),
{
    let c = key.code;
    match mode {
        AppMode::Search(_) => match c {
            KeyCode::Esc => InputAction::EnterMode(AppMode::Normal),
            KeyCode::Enter => InputAction::SearchConfirm,
            KeyCode::Backspace => InputAction::SearchBackspace,
            KeyCode::Down => InputAction::SearchDown,
            KeyCode::Up => InputAction::SearchUp,
            KeyCode::Char(ch) => InputAction::SearchChar(ch),
            _ => InputAction::NoAction,
        },
        AppMode::Rename(_) => if c == KeyCode::Esc {
            InputAction::EnterMode(AppMode::Normal)
        } else {
            InputAction::NoAction
        },
        AppMode::Confirm(_) => if c == KeyCode::Char('y') || c == KeyCode::Char('Y') {
            InputAction::ConfirmApproved
        } else if c == KeyCode::Char('n') || c == KeyCode::Char('N') || c == KeyCode::Esc {
            InputAction::EnterMode(AppMode::Normal)
        } else {
            InputAction::NoAction
        },
        AppMode::Help => if c == KeyCode::Esc || c == KeyCode::Char('q') || c == KeyCode::Char('?') {
            InputAction::EnterMode(AppMode::Normal)
        } else {
            InputAction::NoAction
        },
        AppMode::BookmarkAdd(_) => match c {
            KeyCode::Esc => InputAction::EnterMode(AppMode::Normal),
            KeyCode::Enter => InputAction::BookmarkConfirm,
            KeyCode::Backspace => InputAction::BookmarkBackspace,
            KeyCode::Char(ch) => InputAction::BookmarkChar(ch),
            _ => InputAction::NoAction,
        },
        AppMode::BookmarkList { .. } => if c == KeyCode::Esc || c == KeyCode::Char('q') {
            InputAction::EnterMode(AppMode::Normal)
        } else if c == KeyCode::Char('j') || c == KeyCode::Down {
            InputAction::BookmarkDown
        } else if c == KeyCode::Char('k') || c == KeyCode::Up {
            InputAction::BookmarkUp
        } else if c == KeyCode::Enter || c == KeyCode::Char('l') {
            InputAction::BookmarkSelect
        } else if c == KeyCode::Char('d') {
            InputAction::BookmarkDelete
        } else {
            InputAction::NoAction
        },
        AppMode::RecentFiles => if c == KeyCode::Esc || c == KeyCode::Char('q') {
            InputAction::EnterMode(AppMode::Normal)
        } else if c == KeyCode::Char('j') || c == KeyCode::Down {
            InputAction::RecentDown
        } else if c == KeyCode::Char('k') || c == KeyCode::Up {
            InputAction::RecentUp
        } else if c == KeyCode::Enter || c == KeyCode::Char('l') {
            InputAction::RecentConfirm
        } else {
            InputAction::NoAction
        },
        AppMode::DuplicateFiles => if c == KeyCode::Esc || c == KeyCode::Char('q') {
            InputAction::EnterMode(AppMode::Normal)
        } else if c == KeyCode::Char('j') || c == KeyCode::Down {
            InputAction::DuplicateDown
        } else if c == KeyCode::Char('k') || c == KeyCode::Up {
            InputAction::DuplicateUp
        } else if c == KeyCode::Enter || c == KeyCode::Char('l') {
            InputAction::DuplicateConfirm
        } else if c == KeyCode::Char('d') {
            InputAction::DuplicateDelete
        } else {
            InputAction::NoAction
        },
        AppMode::SortSelect { .. } => if c == KeyCode::Esc || c == KeyCode::Char('q') {
            InputAction::EnterMode(AppMode::Normal)
        } else if c == KeyCode::Char('j') || c == KeyCode::Down {
            InputAction::SortSelectDown
        } else if c == KeyCode::Char('k') || c == KeyCode::Up {
            InputAction::SortSelectUp
        } else if c == KeyCode::Enter {
            InputAction::SortSelectConfirm
        } else if c == KeyCode::Char('a') {
            InputAction::SortSetAscending
        } else if c == KeyCode::Char('d') {
            InputAction::SortSetDescending
        } else {
            InputAction::NoAction
        },
        AppMode::CommandPalette { .. } => match c {
            KeyCode::Esc => InputAction::CommandPaletteCancel,
            KeyCode::Enter => InputAction::CommandPaletteConfirm,
            KeyCode::Backspace => InputAction::CommandPaletteBackspace,
            KeyCode::Down => InputAction::CommandPaletteDown,
            KeyCode::Up => InputAction::CommandPaletteUp,
            KeyCode::Char(ch) => InputAction::CommandPaletteChar(ch),
            _ => InputAction::NoAction,
        },
        _ => InputAction::NoAction,
    }
}

/// The remote connection form's keys.
pub fn handle_remote_connect_key(key: KeyEvent) -> (r: (InputAction, InputState))
    ensures
        modal_input(key, AppMode::RemoteConnect, r.0),
        !r.1.pending_g,
{
    let a = match key.code {
        KeyCode::Esc => InputAction::RemoteConnectCancel,
        KeyCode::Enter => InputAction::RemoteConnectConfirm,
        KeyCode::Tab => InputAction::RemoteConnectNextField,
        KeyCode::BackTab => InputAction::RemoteConnectPrevField,
        KeyCode::Backspace => InputAction::RemoteConnectBackspace,
        KeyCode::Char(ch) => InputAction::RemoteConnectChar(ch),
        _ => InputAction::NoAction,
    };
    (a, InputState::new())
}

fn handle_pager_key(key: &KeyEvent) -> (r: (InputAction, InputState))
    ensures
        pager_input(*key, r),
{
    let c = key.code;
    let new_state = InputState { pending_g: false };
    if c == KeyCode::Char('g') {
        (InputAction::NoAction, InputState { pending_g: true })
    } else if c == KeyCode::Esc || c == KeyCode::Char('q') {
        (InputAction::EnterMode(AppMode::Normal), new_state)
    } else if c == KeyCode::Char('j') || c == KeyCode::Down {
        (InputAction::PagerDown, new_state)
    } else if c == KeyCode::Char('k') || c == KeyCode::Up {
        (InputAction::PagerUp, new_state)
    } else if c == KeyCode::Char('d') {
        (InputAction::PagerHalfDown, new_state)
    } else if c == KeyCode::Char('u') {
        (InputAction::PagerHalfUp, new_state)
    } else if c == KeyCode::Char('G') {
        (InputAction::PagerBottom, new_state)
    } else {
        (InputAction::NoAction, new_state)
    }
}

/// Maps a key press to an [`InputAction`] for the current mode, and gives
/// the next [`InputState`].
pub fn handle_key(key: KeyEvent, mode: &AppMode, state: &InputState, keymap: &Keymap) -> (r: (
    InputAction,
    InputState,
))
    requires
        keymap.wf(),
    ensures
        key_input(key, *mode, *state, keymap@, r),
{
    match mode {
        AppMode::Normal => {
            if state.pending_g {
                let a = if key.code == KeyCode::Char('g') {
                    InputAction::CursorTop
                } else {
                    InputAction::NoAction
                };
                (a, InputState { pending_g: false })
            } else {
                handle_normal_key(&key, keymap)
            }
        },
        AppMode::Pager { .. } => {
            if state.pending_g {
                let a = if key.code == KeyCode::Char('g') {
                    InputAction::PagerTop
                } else {
                    InputAction::NoAction
                };
                (a, InputState { pending_g: false })
            } else {
                handle_pager_key(&key)
            }
        },
        AppMode::Terminal => {
            let ctrl = key.modifiers & CONTROL != 0;
            let a = if (ctrl && key.code == KeyCode::Char('t')) || key.code == KeyCode::Esc {
                InputAction::TerminalUnfocus
            } else {
                InputAction::TerminalInput(key)
            };
            (a, InputState { pending_g: false })
        },
        AppMode::RemoteConnect => handle_remote_connect_key(key),
        _ => (modal_key(&key, mode), InputState { pending_g: false }),
    }
}

} // verus!

//! Unified action system.
//!
//! Every user-triggerable action is represented by the [`Action`] enum.
//! [`ActionRegistry`] provides metadata (name, description, category) and
//! fuzzy search for the Command Palette.

use vstd::prelude::*;
use crate::fuzzy::{skim_fuzzy_match, skim_score};
use crate::sort::{desc_order, index_hit, is_perm_by, is_stable_sort_by, lemma_stable_sort_by_keys, lemma_stable_sort_map, stable_sort, DescKey, SortKey};
use crate::text::str_eq;

verus! {

/// Every user-triggerable action.
///
/// Variants carry no parameters — context is determined at dispatch time.
#[derive(Debug, Clone, Copy, PartialEq, Eq, Hash, Structural)]
pub enum Action {
    // Navigation
    CursorUp,
    CursorDown,
    CursorTop,
    CursorBottom,
    EnterDir,
    GoParent,
    GoHome,
    GoBack,
    GoForward,
    Refresh,
    // File Operations
    Copy,
    Paste,
    Delete,
    Rename,
    Open,
    // View
    ToggleHidden,
    Search,
    SortCycle,
    // Bookmarks
    BookmarkAdd,
    BookmarkGo,
    // Features
    RecentFiles,
    DuplicateFiles,
    // Pager
    Pager,
    // Editor
    EditFile,
    // System
    Help,
    Quit,
    CommandPalette,
    // Terminal
    ToggleTerminal,
    // Remote
    RemoteConnect,
    RemoteDisconnect,
    // Panel
    PanelToggleDual,
    PanelFocusLeft,
    PanelFocusRight,
    // Tab
    TabNew,
    TabClose,
    TabNext,
    TabPrev,
    TabSelect1,
    TabSelect2,
    TabSelect3,
    TabSelect4,
    TabSelect5,
    TabSelect6,
    TabSelect7,
    TabSelect8,
    TabSelect9,
}

/// Broad category for grouping actions in the palette.
#[derive(Debug, Clone, Copy, PartialEq, Eq, Structural)]
pub enum ActionCategory {
    Navigation,
    FileOps,
    View,
    Bookmark,
    Feature,
    System,
    Remote,
    Tab,
}

impl ActionCategory {
    /// Human-readable label for display.
    pub fn label(self) -> (r: &'static str)
        ensures
            r@ == category_label(self),
    {
        match self {
            ActionCategory::Navigation => "Navigation",
            ActionCategory::FileOps => "File",
            ActionCategory::View => "View",
            ActionCategory::Bookmark => "Bookmark",
            ActionCategory::Feature => "Feature",
            ActionCategory::System => "System",
            ActionCategory::Remote => "Remote",
            ActionCategory::Tab => "Tab",
        }
    }
}

/// The label of each category.
pub open spec fn category_label(c: ActionCategory) -> Seq<char> {
    match c {
        ActionCategory::Navigation => "Navigation"@,
        ActionCategory::FileOps => "File"@,
        ActionCategory::View => "View"@,
        ActionCategory::Bookmark => "Bookmark"@,
        ActionCategory::Feature => "Feature"@,
        ActionCategory::System => "System"@,
        ActionCategory::Remote => "Remote"@,
        ActionCategory::Tab => "Tab"@,
    }
}

/// Abstract content of an [`ActionDescriptor`].
pub struct DescriptorView {
    pub action: Action,
    pub id: Seq<char>,
    pub name: Seq<char>,
    pub description: Seq<char>,
    pub category: ActionCategory,
}

/// Metadata for a single action — used by the Command Palette UI.
#[derive(Debug, Clone)]
pub struct ActionDescriptor {
    pub action: Action,
    /// Snake-case identifier used in `keymap.toml` (e.g. `"cursor_up"`).
    pub id: &'static str,
    /// Human-readable name shown in the palette (e.g. `"Cursor Up"`).
    pub name: &'static str,
    /// Short description (e.g. `"Move cursor up one entry"`).
    pub description: &'static str,
    pub category: ActionCategory,
}

impl View for ActionDescriptor {
    type V = DescriptorView;

    open spec fn view(&self) -> DescriptorView {
        DescriptorView {
            action: self.action,
            id: self.id@,
            name: self.name@,
            description: self.description@,
            category: self.category,
        }
    }
}

/// Every known action with its metadata, in registry order.
pub open spec fn action_table() -> Seq<DescriptorView> {
    seq![
        DescriptorView { action: Action::CursorUp, id: "cursor_up"@, name: "Cursor Up"@, description: "Move cursor up one entry"@, category: ActionCategory::Navigation },
        DescriptorView { action: Action::CursorDown, id: "cursor_down"@, name: "Cursor Down"@, description: "Move cursor down one entry"@, category: ActionCategory::Navigation },
        DescriptorView { action: Action::CursorTop, id: "go_first"@, name: "Go to First"@, description: "Jump to the first entry"@, category: ActionCategory::Navigation },
        DescriptorView { action: Action::CursorBottom, id: "go_last"@, name: "Go to Last"@, description: "Jump to the last entry"@, category: ActionCategory::Navigation },
        DescriptorView { action: Action::EnterDir, id: "enter_dir"@, name: "Enter Directory"@, description: "Enter selected directory"@, category: ActionCategory::Navigation },
        DescriptorView { action: Action::GoParent, id: "go_parent"@, name: "Go Parent"@, description: "Navigate to parent directory"@, category: ActionCategory::Navigation },
        DescriptorView { action: Action::GoHome, id: "go_home"@, name: "Go Home"@, description: "Navigate to home directory"@, category: ActionCategory::Navigation },
        DescriptorView { action: Action::GoBack, id: "go_back"@, name: "Go Back"@, description: "Navigate back in history"@, category: ActionCategory::Navigation },
        DescriptorView { action: Action::GoForward, id: "go_forward"@, name: "Go Forward"@, description: "Navigate forward in history"@, category: ActionCategory::Navigation },
        DescriptorView { action: Action::Refresh, id: "refresh"@, name: "Refresh"@, description: "Refresh current directory"@, category: ActionCategory::Navigation },
        DescriptorView { action: Action::Copy, id: "yank"@, name: "Copy (Yank)"@, description: "Copy selected file to clipboard"@, category: ActionCategory::FileOps },
        DescriptorView { action: Action::Paste, id: "paste"@, name: "Paste"@, description: "Paste from clipboard"@, category: ActionCategory::FileOps },
        DescriptorView { action: Action::Delete, id: "delete"@, name: "Delete"@, description: "Delete selected file"@, category: ActionCategory::FileOps },
        DescriptorView { action: Action::Rename, id: "rename"@, name: "Rename"@, description: "Rename selected file"@, category: ActionCategory::FileOps },
        DescriptorView { action: Action::Open, id: "open"@, name: "Open"@, description: "Open with default application"@, category: ActionCategory::FileOps },
        DescriptorView { action: Action::ToggleHidden, id: "toggle_hidden"@, name: "Toggle Hidden"@, description: "Show or hide hidden files"@, category: ActionCategory::View },
        DescriptorView { action: Action::Search, id: "search"@, name: "Search"@, description: "Fuzzy search files"@, category: ActionCategory::View },
        DescriptorView { action: Action::SortCycle, id: "sort_cycle"@, name: "Sort"@, description: "Change sort order"@, category: ActionCategory::View },
        DescriptorView { action: Action::BookmarkAdd, id: "bookmark_add"@, name: "Add Bookmark"@, description: "Bookmark current directory"@, category: ActionCategory::Bookmark },
        DescriptorView { action: Action::BookmarkGo, id: "bookmark_go"@, name: "Open Bookmarks"@, description: "Browse bookmarks"@, category: ActionCategory::Bookmark },
        DescriptorView { action: Action::RecentFiles, id: "recent_files"@, name: "Recent Files"@, description: "Show recently changed files"@, category: ActionCategory::Feature },
        DescriptorView { action: Action::DuplicateFiles, id: "duplicate_files"@, name: "Duplicate Files"@, description: "Find duplicate files"@, category: ActionCategory::Feature },
        DescriptorView { action: Action::Pager, id: "pager"@, name: "Preview (Pager)"@, description: "Full-screen file preview"@, category: ActionCategory::View },
        DescriptorView { action: Action::EditFile, id: "edit_file"@, name: "Edit File"@, description: "Open selected file in $EDITOR"@, category: ActionCategory::FileOps },
        DescriptorView { action: Action::Help, id: "help"@, name: "Help"@, description: "Show keyboard shortcuts"@, category: ActionCategory::System },
        DescriptorView { action: Action::Quit, id: "quit"@, name: "Quit"@, description: "Exit TreFM"@, category: ActionCategory::System },
        DescriptorView { action: Action::CommandPalette, id: "command_palette"@, name: "Command Palette"@, description: "Open command palette"@, category: ActionCategory::System },
        DescriptorView { action: Action::ToggleTerminal, id: "toggle_terminal"@, name: "Toggle Terminal"@, description: "Toggle embedded terminal panel"@, category: ActionCategory::System },
        DescriptorView { action: Action::RemoteConnect, id: "remote_connect"@, name: "Remote Connect"@, description: "Connect to remote server via SSH/SFTP"@, category: ActionCategory::Remote },
        DescriptorView { action: Action::RemoteDisconnect, id: "remote_disconnect"@, name: "Remote Disconnect"@, description: "Disconnect from remote server"@, category: ActionCategory::Remote },
        DescriptorView { action: Action::PanelToggleDual, id: "panel_toggle_dual"@, name: "Toggle Dual Panel"@, description: "Switch between single and dual panel layout"@, category: ActionCategory::View },
        DescriptorView { action: Action::PanelFocusLeft, id: "panel_focus_left"@, name: "Focus Left Panel"@, description: "Switch focus to left panel"@, category: ActionCategory::Navigation },
        DescriptorView { action: Action::PanelFocusRight, id: "panel_focus_right"@, name: "Focus Right Panel"@, description: "Switch focus to right panel"@, category: ActionCategory::Navigation },
        DescriptorView { action: Action::TabNew, id: "tab_new"@, name: "New Tab"@, description: "Open a new tab"@, category: ActionCategory::Tab },
        DescriptorView { action: Action::TabClose, id: "tab_close"@, name: "Close Tab"@, description: "Close current tab"@, category: ActionCategory::Tab },
        DescriptorView { action: Action::TabNext, id: "tab_next"@, name: "Next Tab"@, description: "Switch to next tab"@, category: ActionCategory::Tab },
        DescriptorView { action: Action::TabPrev, id: "tab_prev"@, name: "Previous Tab"@, description: "Switch to previous tab"@, category: ActionCategory::Tab },
        DescriptorView { action: Action::TabSelect1, id: "tab_select_1"@, name: "Select Tab 1"@, description: "Switch to tab 1"@, category: ActionCategory::Tab },
        DescriptorView { action: Action::TabSelect2, id: "tab_select_2"@, name: "Select Tab 2"@, description: "Switch to tab 2"@, category: ActionCategory::Tab },
        DescriptorView { action: Action::TabSelect3, id: "tab_select_3"@, name: "Select Tab 3"@, description: "Switch to tab 3"@, category: ActionCategory::Tab },
        DescriptorView { action: Action::TabSelect4, id: "tab_select_4"@, name: "Select Tab 4"@, description: "Switch to tab 4"@, category: ActionCategory::Tab },
        DescriptorView { action: Action::TabSelect5, id: "tab_select_5"@, name: "Select Tab 5"@, description: "Switch to tab 5"@, category: ActionCategory::Tab },
        DescriptorView { action: Action::TabSelect6, id: "tab_select_6"@, name: "Select Tab 6"@, description: "Switch to tab 6"@, category: ActionCategory::Tab },
        DescriptorView { action: Action::TabSelect7, id: "tab_select_7"@, name: "Select Tab 7"@, description: "Switch to tab 7"@, category: ActionCategory::Tab },
        DescriptorView { action: Action::TabSelect8, id: "tab_select_8"@, name: "Select Tab 8"@, description: "Switch to tab 8"@, category: ActionCategory::Tab },
        DescriptorView { action: Action::TabSelect9, id: "tab_select_9"@, name: "Select Tab 9"@, description: "Switch to tab 9"@, category: ActionCategory::Tab },
    ]
}

/// Registry of all available actions with fuzzy-search support.
#[derive(Debug, Clone)]
pub struct ActionRegistry {
    descriptors: Vec<ActionDescriptor>,
}

/// The views of a list of descriptors.
pub open spec fn descriptors_view(s: Seq<ActionDescriptor>) -> Seq<DescriptorView> {
    s.map_values(|d: ActionDescriptor| d@)
}

/// The position of the first row of `t` whose id is `id`, if any.
pub open spec fn first_with_id(t: Seq<DescriptorView>, id: Seq<char>) -> Option<int> {
    if exists|i: int| 0 <= i < t.len() && t[i].id == id {
        Some(choose|i: int| 0 <= i < t.len() && t[i].id == id && forall|j: int| 0 <= j < i ==> t[j].id != id)
    } else {
        None
    }
}

/// The position of the first row of `t` for `action`, if any.
pub open spec fn first_with_action(t: Seq<DescriptorView>, action: Action) -> Option<int> {
    if exists|i: int| 0 <= i < t.len() && t[i].action == action {
        Some(choose|i: int| 0 <= i < t.len() && t[i].action == action && forall|j: int| 0 <= j < i ==> t[j].action != action)
    } else {
        None
    }
}

/// Best palette score of a descriptor: the largest of the skim scores of its
/// name, description and id, an unmatched field counting as `0`.
pub open spec fn palette_score(d: DescriptorView, query: Seq<char>) -> int {
    let n = match skim_score(d.name, query) { Some(s) => s as int, None => 0 };
    let e = match skim_score(d.description, query) { Some(s) => s as int, None => 0 };
    let i = match skim_score(d.id, query) { Some(s) => s as int, None => 0 };
    let m = if n >= e { n } else { e };
    if m >= i { m } else { i }
}

/// The descriptors with a positive palette score, each with that score, in registry order.
pub open spec fn palette_hits(t: Seq<DescriptorView>, query: Seq<char>) -> Seq<(DescriptorView, int)>
    decreases t.len(),
{
    if t.len() == 0 {
        Seq::empty()
    } else {
        let rest = palette_hits(t.drop_last(), query);
        let s = palette_score(t.last(), query);
        if s > 0 { rest.push((t.last(), s)) } else { rest }
    }
}

/// Order of palette hits: higher score first.
pub open spec fn hit_order() -> spec_fn((DescriptorView, int), (DescriptorView, int)) -> int {
    |a: (DescriptorView, int), b: (DescriptorView, int)| desc_order(a.1, b.1)
}

/// The views of a list of descriptor references.
pub open spec fn refs_view(s: Seq<&ActionDescriptor>) -> Seq<DescriptorView> {
    s.map_values(|d: &ActionDescriptor| d@)
}

/// A palette hit: a descriptor and its score.
pub struct PaletteHit<'a> {
    pub descriptor: &'a ActionDescriptor,
    pub score: i64,
}

impl ActionRegistry {
    /// Builds the registry containing every known action.
    pub fn new() -> (r: Self)
        ensures
            r.table() == action_table(),
    {
        let descriptors = vec![
            ActionDescriptor {
                action: Action::CursorUp,
                id: "cursor_up",
                name: "Cursor Up",
                description: "Move cursor up one entry",
                category: ActionCategory::Navigation,
            },
            ActionDescriptor {
                action: Action::CursorDown,
                id: "cursor_down",
                name: "Cursor Down",
                description: "Move cursor down one entry",
                category: ActionCategory::Navigation,
            },
            ActionDescriptor {
                action: Action::CursorTop,
                id: "go_first",
                name: "Go to First",
                description: "Jump to the first entry",
                category: ActionCategory::Navigation,
            },
            ActionDescriptor {
                action: Action::CursorBottom,
                id: "go_last",
                name: "Go to Last",
                description: "Jump to the last entry",
                category: ActionCategory::Navigation,
            },
            ActionDescriptor {
                action: Action::EnterDir,
                id: "enter_dir",
                name: "Enter Directory",
                description: "Enter selected directory",
                category: ActionCategory::Navigation,
            },
            ActionDescriptor {
                action: Action::GoParent,
                id: "go_parent",
                name: "Go Parent",
                description: "Navigate to parent directory",
                category: ActionCategory::Navigation,
            },
            ActionDescriptor {
                action: Action::GoHome,
                id: "go_home",
                name: "Go Home",
                description: "Navigate to home directory",
                category: ActionCategory::Navigation,
            },
            ActionDescriptor {
                action: Action::GoBack,
                id: "go_back",
                name: "Go Back",
                description: "Navigate back in history",
                category: ActionCategory::Navigation,
            },
            ActionDescriptor {
                action: Action::GoForward,
                id: "go_forward",
                name: "Go Forward",
                description: "Navigate forward in history",
                category: ActionCategory::Navigation,
            },
            ActionDescriptor {
                action: Action::Refresh,
                id: "refresh",
                name: "Refresh",
                description: "Refresh current directory",
                category: ActionCategory::Navigation,
            },
            ActionDescriptor {
                action: Action::Copy,
                id: "yank",
                name: "Copy (Yank)",
                description: "Copy selected file to clipboard",
                category: ActionCategory::FileOps,
            },
            ActionDescriptor {
                action: Action::Paste,
                id: "paste",
                name: "Paste",
                description: "Paste from clipboard",
                category: ActionCategory::FileOps,
            },
            ActionDescriptor {
                action: Action::Delete,
                id: "delete",
                name: "Delete",
                description: "Delete selected file",
                category: ActionCategory::FileOps,
            },
            ActionDescriptor {
                action: Action::Rename,
                id: "rename",
                name: "Rename",
                description: "Rename selected file",
                category: ActionCategory::FileOps,
            },
            ActionDescriptor {
                action: Action::Open,
                id: "open",
                name: "Open",
                description: "Open with default application",
                category: ActionCategory::FileOps,
            },
            ActionDescriptor {
                action: Action::ToggleHidden,
                id: "toggle_hidden",
                name: "Toggle Hidden",
                description: "Show or hide hidden files",
                category: ActionCategory::View,
            },
            ActionDescriptor {
                action: Action::Search,
                id: "search",
                name: "Search",
                description: "Fuzzy search files",
                category: ActionCategory::View,
            },
            ActionDescriptor {
                action: Action::SortCycle,
                id: "sort_cycle",
                name: "Sort",
                description: "Change sort order",
                category: ActionCategory::View,
            },
            ActionDescriptor {
                action: Action::BookmarkAdd,
                id: "bookmark_add",
                name: "Add Bookmark",
                description: "Bookmark current directory",
                category: ActionCategory::Bookmark,
            },
            ActionDescriptor {
                action: Action::BookmarkGo,
                id: "bookmark_go",
                name: "Open Bookmarks",
                description: "Browse bookmarks",
                category: ActionCategory::Bookmark,
            },
            ActionDescriptor {
                action: Action::RecentFiles,
                id: "recent_files",
                name: "Recent Files",
                description: "Show recently changed files",
                category: ActionCategory::Feature,
            },
            ActionDescriptor {
                action: Action::DuplicateFiles,
                id: "duplicate_files",
                name: "Duplicate Files",
                description: "Find duplicate files",
                category: ActionCategory::Feature,
            },
            ActionDescriptor {
                action: Action::Pager,
                id: "pager",
                name: "Preview (Pager)",
                description: "Full-screen file preview",
                category: ActionCategory::View,
            },
            ActionDescriptor {
                action: Action::EditFile,
                id: "edit_file",
                name: "Edit File",
                description: "Open selected file in $EDITOR",
                category: ActionCategory::FileOps,
            },
            ActionDescriptor {
                action: Action::Help,
                id: "help",
                name: "Help",
                description: "Show keyboard shortcuts",
                category: ActionCategory::System,
            },
            ActionDescriptor {
                action: Action::Quit,
                id: "quit",
                name: "Quit",
                description: "Exit TreFM",
                category: ActionCategory::System,
            },
            ActionDescriptor {
                action: Action::CommandPalette,
                id: "command_palette",
                name: "Command Palette",
                description: "Open command palette",
                category: ActionCategory::System,
            },
            ActionDescriptor {
                action: Action::ToggleTerminal,
                id: "toggle_terminal",
                name: "Toggle Terminal",
                description: "Toggle embedded terminal panel",
                category: ActionCategory::System,
            },
            ActionDescriptor {
                action: Action::RemoteConnect,
                id: "remote_connect",
                name: "Remote Connect",
                description: "Connect to remote server via SSH/SFTP",
                category: ActionCategory::Remote,
            },
            ActionDescriptor {
                action: Action::RemoteDisconnect,
                id: "remote_disconnect",
                name: "Remote Disconnect",
                description: "Disconnect from remote server",
                category: ActionCategory::Remote,
            },
            ActionDescriptor {
                action: Action::PanelToggleDual,
                id: "panel_toggle_dual",
                name: "Toggle Dual Panel",
                description: "Switch between single and dual panel layout",
                category: ActionCategory::View,
            },
            ActionDescriptor {
                action: Action::PanelFocusLeft,
                id: "panel_focus_left",
                name: "Focus Left Panel",
                description: "Switch focus to left panel",
                category: ActionCategory::Navigation,
            },
            ActionDescriptor {
                action: Action::PanelFocusRight,
                id: "panel_focus_right",
                name: "Focus Right Panel",
                description: "Switch focus to right panel",
                category: ActionCategory::Navigation,
            },
            ActionDescriptor {
                action: Action::TabNew,
                id: "tab_new",
                name: "New Tab",
                description: "Open a new tab",
                category: ActionCategory::Tab,
            },
            ActionDescriptor {
                action: Action::TabClose,
                id: "tab_close",
                name: "Close Tab",
                description: "Close current tab",
                category: ActionCategory::Tab,
            },
            ActionDescriptor {
                action: Action::TabNext,
                id: "tab_next",
                name: "Next Tab",
                description: "Switch to next tab",
                category: ActionCategory::Tab,
            },
            ActionDescriptor {
                action: Action::TabPrev,
                id: "tab_prev",
                name: "Previous Tab",
                description: "Switch to previous tab",
                category: ActionCategory::Tab,
            },
            ActionDescriptor {
                action: Action::TabSelect1,
                id: "tab_select_1",
                name: "Select Tab 1",
                description: "Switch to tab 1",
                category: ActionCategory::Tab,
            },
            ActionDescriptor {
                action: Action::TabSelect2,
                id: "tab_select_2",
                name: "Select Tab 2",
                description: "Switch to tab 2",
                category: ActionCategory::Tab,
            },
            ActionDescriptor {
                action: Action::TabSelect3,
                id: "tab_select_3",
                name: "Select Tab 3",
                description: "Switch to tab 3",
                category: ActionCategory::Tab,
            },
            ActionDescriptor {
                action: Action::TabSelect4,
                id: "tab_select_4",
                name: "Select Tab 4",
                description: "Switch to tab 4",
                category: ActionCategory::Tab,
            },
            ActionDescriptor {
                action: Action::TabSelect5,
                id: "tab_select_5",
                name: "Select Tab 5",
                description: "Switch to tab 5",
                category: ActionCategory::Tab,
            },
            ActionDescriptor {
                action: Action::TabSelect6,
                id: "tab_select_6",
                name: "Select Tab 6",
                description: "Switch to tab 6",
                category: ActionCategory::Tab,
            },
            ActionDescriptor {
                action: Action::TabSelect7,
                id: "tab_select_7",
                name: "Select Tab 7",
                description: "Switch to tab 7",
                category: ActionCategory::Tab,
            },
            ActionDescriptor {
                action: Action::TabSelect8,
                id: "tab_select_8",
                name: "Select Tab 8",
                description: "Switch to tab 8",
                category: ActionCategory::Tab,
            },
            ActionDescriptor {
                action: Action::TabSelect9,
                id: "tab_select_9",
                name: "Select Tab 9",
                description: "Switch to tab 9",
                category: ActionCategory::Tab,
            },
        ];
        let r = ActionRegistry { descriptors };
        assert(descriptors_view(r.descriptors@) =~= action_table());
        r
    }

    /// The descriptors of this registry, as views.
    pub closed spec fn table(&self) -> Seq<DescriptorView> {
        descriptors_view(self.descriptors@)
    }

    /// Returns all descriptors.
    pub fn all(&self) -> (r: &[ActionDescriptor])
        ensures
            descriptors_view(r@) == self.table(),
    {
        self.descriptors.as_slice()
    }

    /// Fuzzy-searches descriptors by matching against name, description, and id.
    ///
    /// An empty query returns every descriptor in registry order. Otherwise
    /// the descriptors whose best score is positive are returned, best score
    /// first; equal scores keep registry order.
    pub fn fuzzy_search(&self, query: &str) -> (r: Vec<&ActionDescriptor>)
        ensures
            query@.len() == 0 ==> r@.map_values(|d: &ActionDescriptor| d@) == self.table(),
            query@.len() > 0 ==> exists|scores: Seq<int>|
                scores.len() == r@.len() && is_stable_sort_by(
                    #[trigger] refs_view(r@).zip_with(scores),
                    palette_hits(self.table(), query@),
                    hit_order(),
                ),
            query@.len() > 0 ==> forall|i: int, s: i64|
                0 <= i < self.table().len() && (skim_score(self.table()[i].name, query@) == Some(s)
                    || skim_score(self.table()[i].description, query@) == Some(s)
                    || skim_score(self.table()[i].id, query@) == Some(s)) && s > 0 ==> exists|k: int|
                    0 <= k < r@.len() && (#[trigger] r@[k])@ == self.table()[i],
    {
        if query.is_empty() {
            let mut all: Vec<&ActionDescriptor> = Vec::new();
            for i in 0..self.descriptors.len()
                invariant
                    all@.map_values(|d: &ActionDescriptor| d@) == descriptors_view(self.descriptors@.take(i as int)),
            {
                let ghost before = all@;
                all.push(&self.descriptors[i]);
                proof {
                    assert(all@.map_values(|d: &ActionDescriptor| d@) =~= before.map_values(|d: &ActionDescriptor| d@).push(self.descriptors@[i as int]@));
                    assert(descriptors_view(self.descriptors@.take(i + 1)) =~= descriptors_view(self.descriptors@.take(i as int)).push(self.descriptors@[i as int]@));
                }
            }
            proof {
                assert(self.descriptors@.take(self.descriptors.len() as int) =~= self.descriptors@);
            }
            return all;
        }
        let ghost t = self.table();
        let mut items: Vec<PaletteHit> = Vec::new();
        let mut keys: Vec<DescKey> = Vec::new();
        for i in 0..self.descriptors.len()
            invariant
                t == descriptors_view(self.descriptors@),
                items.len() == keys.len(),
                items@.map_values(|h: PaletteHit| (h.descriptor@, h.score as int)) == palette_hits(t.take(i as int), query@),
                forall|k: int| 0 <= k < keys.len() ==> (#[trigger] keys@[k]).0 == items@[k].score,
        {
            let d = &self.descriptors[i];
            let name_score = match skim_fuzzy_match(d.name, query) { Some(s) => s, None => 0 };
            let desc_score = match skim_fuzzy_match(d.description, query) { Some(s) => s, None => 0 };
            let id_score = match skim_fuzzy_match(d.id, query) { Some(s) => s, None => 0 };
            let m = if name_score >= desc_score { name_score } else { desc_score };
            let best = if m >= id_score { m } else { id_score };
            proof {
                assert(t.take(i + 1).drop_last() =~= t.take(i as int));
                assert(t.take(i + 1).last() == d@);
                assert(best as int == palette_score(d@, query@));
            }
            if best > 0 {
                let ghost before = items@;
                items.push(PaletteHit { descriptor: d, score: best });
                keys.push(DescKey(best as i128));
                proof {
                    assert(items@.map_values(|h: PaletteHit| (h.descriptor@, h.score as int)) =~= before.map_values(|h: PaletteHit| (h.descriptor@, h.score as int)).push((d@, best as int)));
                }
            }
        }
        proof {
            assert(t.take(self.descriptors.len() as int) =~= t);
        }
        let ghost iv = items@;
        let ghost kv = keys@;
        let sorted = stable_sort(items, keys);
        let ghost hv = |h: PaletteHit| (h.descriptor@, h.score as int);
        proof {
            let ord = |a: PaletteHit, b: PaletteHit| desc_order(a.score as int, b.score as int);
            assert forall|i: int, j: int|
                0 <= i < iv.len() && 0 <= j < iv.len() implies (#[trigger] kv[i]).key_order(
                    #[trigger] kv[j],
                ) == ord(iv[i], iv[j]) by {}
            lemma_stable_sort_by_keys(sorted@, iv, kv, ord);
            lemma_stable_sort_map(sorted@, iv, ord, hv, hit_order());
        }
        let mut out: Vec<&ActionDescriptor> = Vec::new();
        let ghost mut scores: Seq<int> = Seq::empty();
        let mut i: usize = 0;
        while i < sorted.len()
            invariant
                i <= sorted.len(),
                out.len() == i,
                scores.len() == i,
                forall|k: int| 0 <= k < i ==> (#[trigger] out@[k])@ == sorted@[k].descriptor@ && scores[k] == sorted@[k].score as int,
            decreases sorted.len() - i,
        {
            out.push(sorted[i].descriptor);
            proof {
                scores = scores.push(sorted@[i as int].score as int);
            }
            i = i + 1;
        }
        proof {
            assert(refs_view(out@).zip_with(scores) =~= sorted@.map_values(hv));
            let ov = refs_view(out@);
            assert forall|i: int, s: i64|
                0 <= i < t.len() && (skim_score(t[i].name, query@) == Some(s)
                    || skim_score(t[i].description, query@) == Some(s)
                    || skim_score(t[i].id, query@) == Some(s)) && s > 0 implies exists|k: int|
                    0 <= k < out@.len() && (#[trigger] out@[k])@ == t[i] by {
                law_palette_search_finds_every_field(ov, scores, t, query@, i);
                let k = choose|k: int| 0 <= k < ov.len() && ov[k] == t[i] && scores[k] >= s;
                assert(ov[k] == out@[k]@);
            }
        }
        out
    }

    /// Finds an action by its string id (for keymap parsing).
    pub fn find_by_id(&self, id: &str) -> (r: Option<Action>)
        ensures
            r is None <==> first_with_id(self.table(), id@) is None,
            r matches Some(a) ==> a == self.table()[first_with_id(self.table(), id@).unwrap()].action,
    {
        let ghost t = self.table();
        let mut i: usize = 0;
        while i < self.descriptors.len()
            invariant
                i <= self.descriptors.len(),
                t == descriptors_view(self.descriptors@),
                forall|k: int| 0 <= k < i ==> (#[trigger] t[k]).id != id@,
            decreases self.descriptors.len() - i,
        {
            if str_eq(self.descriptors[i].id, id) {
                proof {
                    assert(t[i as int].id == id@);
                    let f = first_with_id(t, id@).unwrap();
                    assert(f == i) by {
                        if f < i {
                            assert(t[f].id != id@);
                        } else if f > i {
                            assert(t[i as int].id != id@);
                        }
                    }
                }
                return Some(self.descriptors[i].action);
            }
            i = i + 1;
        }
        None
    }

    /// Returns the descriptor for a given action.
    pub fn descriptor_for(&self, action: Action) -> (r: Option<&ActionDescriptor>)
        ensures
            r is None <==> first_with_action(self.table(), action) is None,
            r matches Some(d) ==> d@ == self.table()[first_with_action(self.table(), action).unwrap()],
    {
        let ghost t = self.table();
        let mut i: usize = 0;
        while i < self.descriptors.len()
            invariant
                i <= self.descriptors.len(),
                t == descriptors_view(self.descriptors@),
                forall|k: int| 0 <= k < i ==> (#[trigger] t[k]).action != action,
            decreases self.descriptors.len() - i,
        {
            if self.descriptors[i].action == action {
                proof {
                    assert(t[i as int].action == action);
                    let f = first_with_action(t, action).unwrap();
                    assert(f == i) by {
                        if f < i {
                            assert(t[f].action != action);
                        } else if f > i {
                            assert(t[i as int].action != action);
                        }
                    }
                }
                return Some(&self.descriptors[i]);
            }
            i = i + 1;
        }
        None
    }
}

/// Every descriptor with a positive palette score is among the palette
/// hits, with that score.
proof fn lemma_hits_contain(t: Seq<DescriptorView>, query: Seq<char>, i: int)
    requires
        0 <= i < t.len(),
        palette_score(t[i], query) > 0,
    ensures
        exists|j: int|
            0 <= j < palette_hits(t, query).len() && #[trigger] palette_hits(t, query)[j] == (
                t[i],
                palette_score(t[i], query),
            ),
    decreases t.len(),
{
    let rest = palette_hits(t.drop_last(), query);
    if i == t.len() - 1 {
        assert(palette_hits(t, query) == rest.push((t.last(), palette_score(t.last(), query))));
        assert(palette_hits(t, query)[rest.len() as int] == (t[i], palette_score(t[i], query)));
    } else {
        assert(t.drop_last()[i] == t[i]);
        lemma_hits_contain(t.drop_last(), query, i);
        let j = choose|j: int|
            0 <= j < rest.len() && #[trigger] rest[j] == (t.drop_last()[i], palette_score(t.drop_last()[i], query));
        if palette_score(t.last(), query) > 0 {
            assert(palette_hits(t, query) == rest.push((t.last(), palette_score(t.last(), query))));
            assert(palette_hits(t, query)[j] == rest[j]);
        } else {
            assert(palette_hits(t, query) == rest);
        }
        assert(0 <= j < palette_hits(t, query).len() && palette_hits(t, query)[j] == (t[i], palette_score(t[i], query)));
    }
}

/// Searching the palette with a non-empty query finds every action whose
/// name, description or id the query matches with a positive skim score,
/// and ranks it by a score at least that field's score: the score of a
/// descriptor is the best of the scores of its three fields. Here `out` and
/// `scores` are a result of [`ActionRegistry::fuzzy_search`] and the scores
/// it ranked by (see its contract).
pub proof fn law_palette_search_finds_every_field(
    out: Seq<DescriptorView>,
    scores: Seq<int>,
    t: Seq<DescriptorView>,
    query: Seq<char>,
    i: int,
)
    requires
        0 <= i < t.len(),
        scores.len() == out.len(),
        is_stable_sort_by(out.zip_with(scores), palette_hits(t, query), hit_order()),
    ensures
        forall|s: i64|
            (skim_score(t[i].name, query) == Some(s) || skim_score(t[i].description, query) == Some(s)
                || skim_score(t[i].id, query) == Some(s)) && s > 0 ==> exists|k: int|
                0 <= k < out.len() && out[k] == t[i] && scores[k] >= s,
{
    let hits = palette_hits(t, query);
    let z = out.zip_with(scores);
    assert forall|s: i64|
        (skim_score(t[i].name, query) == Some(s) || skim_score(t[i].description, query) == Some(s)
            || skim_score(t[i].id, query) == Some(s)) && s > 0 implies exists|k: int|
            0 <= k < out.len() && out[k] == t[i] && scores[k] >= s by {
        assert(palette_score(t[i], query) >= s);
        lemma_hits_contain(t, query, i);
        let j = choose|j: int| 0 <= j < hits.len() && #[trigger] hits[j] == (t[i], palette_score(t[i], query));
        let p = choose|p: Seq<int>|
            {
                &&& is_perm_by(z, hits, p)
                &&& forall|k: int, l: int|
                    0 <= k < l < p.len() ==> {
                        &&& hit_order()(hits[#[trigger] p[k]], hits[#[trigger] p[l]]) <= 0
                        &&& hit_order()(hits[p[k]], hits[p[l]]) == 0 ==> p[k] < p[l]
                    }
            };
        assert(index_hit(p, j));
        let k = choose|k: int| 0 <= k < p.len() && p[k] == j;
        assert(z[k] == hits[p[k]]);
        assert(z.len() == out.len());
        if out.len() > 0 {
            assert(z[k] == (out[k], scores[k]));
        }
    }
}

/// The row of the action table that holds each action.
#[verifier::opaque]
pub closed spec fn action_pos(a: Action) -> int {
    match a {
        Action::CursorUp => 0,
        Action::CursorDown => 1,
        Action::CursorTop => 2,
        Action::CursorBottom => 3,
        Action::EnterDir => 4,
        Action::GoParent => 5,
        Action::GoHome => 6,
        Action::GoBack => 7,
        Action::GoForward => 8,
        Action::Refresh => 9,
        Action::Copy => 10,
        Action::Paste => 11,
        Action::Delete => 12,
        Action::Rename => 13,
        Action::Open => 14,
        Action::ToggleHidden => 15,
        Action::Search => 16,
        Action::SortCycle => 17,
        Action::BookmarkAdd => 18,
        Action::BookmarkGo => 19,
        Action::RecentFiles => 20,
        Action::DuplicateFiles => 21,
        Action::Pager => 22,
        Action::EditFile => 23,
        Action::Help => 24,
        Action::Quit => 25,
        Action::CommandPalette => 26,
        Action::ToggleTerminal => 27,
        Action::RemoteConnect => 28,
        Action::RemoteDisconnect => 29,
        Action::PanelToggleDual => 30,
        Action::PanelFocusLeft => 31,
        Action::PanelFocusRight => 32,
        Action::TabNew => 33,
        Action::TabClose => 34,
        Action::TabNext => 35,
        Action::TabPrev => 36,
        Action::TabSelect1 => 37,
        Action::TabSelect2 => 38,
        Action::TabSelect3 => 39,
        Action::TabSelect4 => 40,
        Action::TabSelect5 => 41,
        Action::TabSelect6 => 42,
        Action::TabSelect7 => 43,
        Action::TabSelect8 => 44,
        Action::TabSelect9 => 45,
    }
}

/// The action held by each row of the action table.
#[verifier::opaque]
pub closed spec fn action_at(i: int) -> Action {
    if i == 0 {
        Action::CursorUp
    } else if i == 1 {
        Action::CursorDown
    } else if i == 2 {
        Action::CursorTop
    } else if i == 3 {
        Action::CursorBottom
    } else if i == 4 {
        Action::EnterDir
    } else if i == 5 {
        Action::GoParent
    } else if i == 6 {
        Action::GoHome
    } else if i == 7 {
        Action::GoBack
    } else if i == 8 {
        Action::GoForward
    } else if i == 9 {
        Action::Refresh
    } else if i == 10 {
        Action::Copy
    } else if i == 11 {
        Action::Paste
    } else if i == 12 {
        Action::Delete
    } else if i == 13 {
        Action::Rename
    } else if i == 14 {
        Action::Open
    } else if i == 15 {
        Action::ToggleHidden
    } else if i == 16 {
        Action::Search
    } else if i == 17 {
        Action::SortCycle
    } else if i == 18 {
        Action::BookmarkAdd
    } else if i == 19 {
        Action::BookmarkGo
    } else if i == 20 {
        Action::RecentFiles
    } else if i == 21 {
        Action::DuplicateFiles
    } else if i == 22 {
        Action::Pager
    } else if i == 23 {
        Action::EditFile
    } else if i == 24 {
        Action::Help
    } else if i == 25 {
        Action::Quit
    } else if i == 26 {
        Action::CommandPalette
    } else if i == 27 {
        Action::ToggleTerminal
    } else if i == 28 {
        Action::RemoteConnect
    } else if i == 29 {
        Action::RemoteDisconnect
    } else if i == 30 {
        Action::PanelToggleDual
    } else if i == 31 {
        Action::PanelFocusLeft
    } else if i == 32 {
        Action::PanelFocusRight
    } else if i == 33 {
        Action::TabNew
    } else if i == 34 {
        Action::TabClose
    } else if i == 35 {
        Action::TabNext
    } else if i == 36 {
        Action::TabPrev
    } else if i == 37 {
        Action::TabSelect1
    } else if i == 38 {
        Action::TabSelect2
    } else if i == 39 {
        Action::TabSelect3
    } else if i == 40 {
        Action::TabSelect4
    } else if i == 41 {
        Action::TabSelect5
    } else if i == 42 {
        Action::TabSelect6
    } else if i == 43 {
        Action::TabSelect7
    } else if i == 44 {
        Action::TabSelect8
    } else {
        Action::TabSelect9
    }
}

/// The row of the action table whose id has the length, first and last
/// character of `id`; these three tell every id of the table apart.
#[verifier::opaque]
pub closed spec fn id_pos(id: Seq<char>) -> int {
    let n = id.len();
    let f = id[0];
    let l = id[n - 1];
    if n == 9 && f == 'c' && l == 'p' {
        0
    } else if n == 11 && f == 'c' && l == 'n' {
        1
    } else if n == 8 && f == 'g' && l == 't' {
        2
    } else if n == 7 && f == 'g' && l == 't' {
        3
    } else if n == 9 && f == 'e' && l == 'r' {
        4
    } else if n == 9 && f == 'g' && l == 't' {
        5
    } else if n == 7 && f == 'g' && l == 'e' {
        6
    } else if n == 7 && f == 'g' && l == 'k' {
        7
    } else if n == 10 && f == 'g' && l == 'd' {
        8
    } else if n == 7 && f == 'r' && l == 'h' {
        9
    } else if n == 4 && f == 'y' && l == 'k' {
        10
    } else if n == 5 && f == 'p' && l == 'e' {
        11
    } else if n == 6 && f == 'd' && l == 'e' {
        12
    } else if n == 6 && f == 'r' && l == 'e' {
        13
    } else if n == 4 && f == 'o' && l == 'n' {
        14
    } else if n == 13 && f == 't' && l == 'n' {
        15
    } else if n == 6 && f == 's' && l == 'h' {
        16
    } else if n == 10 && f == 's' && l == 'e' {
        17
    } else if n == 12 && f == 'b' && l == 'd' {
        18
    } else if n == 11 && f == 'b' && l == 'o' {
        19
    } else if n == 12 && f == 'r' && l == 's' {
        20
    } else if n == 15 && f == 'd' && l == 's' {
        21
    } else if n == 5 && f == 'p' && l == 'r' {
        22
    } else if n == 9 && f == 'e' && l == 'e' {
        23
    } else if n == 4 && f == 'h' && l == 'p' {
        24
    } else if n == 4 && f == 'q' && l == 't' {
        25
    } else if n == 15 && f == 'c' && l == 'e' {
        26
    } else if n == 15 && f == 't' && l == 'l' {
        27
    } else if n == 14 && f == 'r' && l == 't' {
        28
    } else if n == 17 && f == 'r' && l == 't' {
        29
    } else if n == 17 && f == 'p' && l == 'l' {
        30
    } else if n == 16 && f == 'p' && l == 't' {
        31
    } else if n == 17 && f == 'p' && l == 't' {
        32
    } else if n == 7 && f == 't' && l == 'w' {
        33
    } else if n == 9 && f == 't' && l == 'e' {
        34
    } else if n == 8 && f == 't' && l == 't' {
        35
    } else if n == 8 && f == 't' && l == 'v' {
        36
    } else if n == 12 && f == 't' && l == '1' {
        37
    } else if n == 12 && f == 't' && l == '2' {
        38
    } else if n == 12 && f == 't' && l == '3' {
        39
    } else if n == 12 && f == 't' && l == '4' {
        40
    } else if n == 12 && f == 't' && l == '5' {
        41
    } else if n == 12 && f == 't' && l == '6' {
        42
    } else if n == 12 && f == 't' && l == '7' {
        43
    } else if n == 12 && f == 't' && l == '8' {
        44
    } else if n == 12 && f == 't' && l == '9' {
        45
    } else {
        -1
    }
}

/// Row `k` of the action table holds the action at `k`, and its id is told
/// apart from every other id of the table.
proof fn lemma_table_row(k: int)
    requires
        0 <= k < action_table().len(),
    ensures
        action_table()[k].action == action_at(k),
        action_pos(action_table()[k].action) == k,
        id_pos(action_table()[k].id) == k,
{
    reveal(action_pos);
    reveal(action_at);
    reveal(id_pos);
    if k == 0 {
        reveal_strlit("cursor_up");
        assert(action_table()[0].id == "cursor_up"@);
    } else if k == 1 {
        reveal_strlit("cursor_down");
        assert(action_table()[1].id == "cursor_down"@);
    } else if k == 2 {
        reveal_strlit("go_first");
        assert(action_table()[2].id == "go_first"@);
    } else if k == 3 {
        reveal_strlit("go_last");
        assert(action_table()[3].id == "go_last"@);
    } else if k == 4 {
        reveal_strlit("enter_dir");
        assert(action_table()[4].id == "enter_dir"@);
    } else if k == 5 {
        reveal_strlit("go_parent");
        assert(action_table()[5].id == "go_parent"@);
    } else if k == 6 {
        reveal_strlit("go_home");
        assert(action_table()[6].id == "go_home"@);
    } else if k == 7 {
        reveal_strlit("go_back");
        assert(action_table()[7].id == "go_back"@);
    } else if k == 8 {
        reveal_strlit("go_forward");
        assert(action_table()[8].id == "go_forward"@);
    } else if k == 9 {
        reveal_strlit("refresh");
        assert(action_table()[9].id == "refresh"@);
    } else if k == 10 {
        reveal_strlit("yank");
        assert(action_table()[10].id == "yank"@);
    } else if k == 11 {
        reveal_strlit("paste");
        assert(action_table()[11].id == "paste"@);
    } else if k == 12 {
        reveal_strlit("delete");
        assert(action_table()[12].id == "delete"@);
    } else if k == 13 {
        reveal_strlit("rename");
        assert(action_table()[13].id == "rename"@);
    } else if k == 14 {
        reveal_strlit("open");
        assert(action_table()[14].id == "open"@);
    } else if k == 15 {
        reveal_strlit("toggle_hidden");
        assert(action_table()[15].id == "toggle_hidden"@);
    } else if k == 16 {
        reveal_strlit("search");
        assert(action_table()[16].id == "search"@);
    } else if k == 17 {
        reveal_strlit("sort_cycle");
        assert(action_table()[17].id == "sort_cycle"@);
    } else if k == 18 {
        reveal_strlit("bookmark_add");
        assert(action_table()[18].id == "bookmark_add"@);
    } else if k == 19 {
        reveal_strlit("bookmark_go");
        assert(action_table()[19].id == "bookmark_go"@);
    } else if k == 20 {
        reveal_strlit("recent_files");
        assert(action_table()[20].id == "recent_files"@);
    } else if k == 21 {
        reveal_strlit("duplicate_files");
        assert(action_table()[21].id == "duplicate_files"@);
    } else if k == 22 {
        reveal_strlit("pager");
        assert(action_table()[22].id == "pager"@);
    } else if k == 23 {
        reveal_strlit("edit_file");
        assert(action_table()[23].id == "edit_file"@);
    } else if k == 24 {
        reveal_strlit("help");
        assert(action_table()[24].id == "help"@);
    } else if k == 25 {
        reveal_strlit("quit");
        assert(action_table()[25].id == "quit"@);
    } else if k == 26 {
        reveal_strlit("command_palette");
        assert(action_table()[26].id == "command_palette"@);
    } else if k == 27 {
        reveal_strlit("toggle_terminal");
        assert(action_table()[27].id == "toggle_terminal"@);
    } else if k == 28 {
        reveal_strlit("remote_connect");
        assert(action_table()[28].id == "remote_connect"@);
    } else if k == 29 {
        reveal_strlit("remote_disconnect");
        assert(action_table()[29].id == "remote_disconnect"@);
    } else if k == 30 {
        reveal_strlit("panel_toggle_dual");
        assert(action_table()[30].id == "panel_toggle_dual"@);
    } else if k == 31 {
        reveal_strlit("panel_focus_left");
        assert(action_table()[31].id == "panel_focus_left"@);
    } else if k == 32 {
        reveal_strlit("panel_focus_right");
        assert(action_table()[32].id == "panel_focus_right"@);
    } else if k == 33 {
        reveal_strlit("tab_new");
        assert(action_table()[33].id == "tab_new"@);
    } else if k == 34 {
        reveal_strlit("tab_close");
        assert(action_table()[34].id == "tab_close"@);
    } else if k == 35 {
        reveal_strlit("tab_next");
        assert(action_table()[35].id == "tab_next"@);
    } else if k == 36 {
        reveal_strlit("tab_prev");
        assert(action_table()[36].id == "tab_prev"@);
    } else if k == 37 {
        reveal_strlit("tab_select_1");
        assert(action_table()[37].id == "tab_select_1"@);
    } else if k == 38 {
        reveal_strlit("tab_select_2");
        assert(action_table()[38].id == "tab_select_2"@);
    } else if k == 39 {
        reveal_strlit("tab_select_3");
        assert(action_table()[39].id == "tab_select_3"@);
    } else if k == 40 {
        reveal_strlit("tab_select_4");
        assert(action_table()[40].id == "tab_select_4"@);
    } else if k == 41 {
        reveal_strlit("tab_select_5");
        assert(action_table()[41].id == "tab_select_5"@);
    } else if k == 42 {
        reveal_strlit("tab_select_6");
        assert(action_table()[42].id == "tab_select_6"@);
    } else if k == 43 {
        reveal_strlit("tab_select_7");
        assert(action_table()[43].id == "tab_select_7"@);
    } else if k == 44 {
        reveal_strlit("tab_select_8");
        assert(action_table()[44].id == "tab_select_8"@);
    } else if k == 45 {
        reveal_strlit("tab_select_9");
        assert(action_table()[45].id == "tab_select_9"@);
    }
}

/// Each action has a row and `action_at` undoes `action_pos`.
proof fn lemma_action_pos(a: Action)
    ensures
        0 <= action_pos(a) < 46,
        action_at(action_pos(a)) == a,
{
    reveal(action_pos);
    reveal(action_at);
}

/// In a table where every row sits at the position named by its action and by
/// its id, each row is the first with its action and the first with its id.
proof fn lemma_rows_first(t: Seq<DescriptorView>, i: int)
    requires
        0 <= i < t.len(),
        forall|k: int| 0 <= k < t.len() ==> action_pos(#[trigger] t[k].action) == k,
        forall|k: int| 0 <= k < t.len() ==> id_pos(#[trigger] t[k].id) == k,
    ensures
        first_with_action(t, t[i].action) == Some(i),
        first_with_id(t, t[i].id) == Some(i),
{
    assert(t[i].action == t[i].action);
    let c = first_with_action(t, t[i].action).unwrap();
    assert(action_pos(t[c].action) == c);
    assert(action_pos(t[i].action) == i);
    assert(t[i].id == t[i].id);
    let d = first_with_id(t, t[i].id).unwrap();
    assert(id_pos(t[d].id) == d);
    assert(id_pos(t[i].id) == i);
}

/// Every action is listed in the action registry, and looking it up by the id
/// of its descriptor gives back the same descriptor: each action has exactly one
/// row, and no two rows share an id.
pub proof fn law_registry_round_trip(a: Action)
    ensures
        first_with_action(action_table(), a) == Some(action_pos(a)),
        action_table()[action_pos(a)].action == a,
        first_with_id(action_table(), action_table()[action_pos(a)].id) == Some(action_pos(a)),
{
    lemma_action_pos(a);
    lemma_table_rows();
    lemma_table_row(action_pos(a));
    lemma_rows_first(action_table(), action_pos(a));
}

/// Every row of the action table sits at the position named by its action
/// and by its id.
proof fn lemma_table_rows()
    ensures
        action_table().len() == 46,
        forall|k: int| 0 <= k < action_table().len() ==> action_pos(#[trigger] action_table()[k].action) == k,
        forall|k: int| 0 <= k < action_table().len() ==> id_pos(#[trigger] action_table()[k].id) == k,
{
    assert forall|k: int| 0 <= k < action_table().len() implies action_pos(#[trigger] action_table()[k].action) == k by {
        lemma_table_row(k);
    }
    assert forall|k: int| 0 <= k < action_table().len() implies id_pos(#[trigger] action_table()[k].id) == k by {
        lemma_table_row(k);
    }
}

} // verus!

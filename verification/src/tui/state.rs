//! Top-level application state.
//!
//! Every transition consumes the state and returns the next one. What the
//! transitions need from the disk (directory listings, git information,
//! file contents) is read by the caller and handed in; the requests a
//! command makes are answered by [`App::listing_request`].

use vstd::prelude::*;
use crate::action::ActionRegistry;
use crate::config::keymap::Keymap;
use crate::config::theme::Theme;
use crate::error::CoreError;
use crate::event::Command;
use crate::fs::duplicates::{CachedDuplicateGroup, DuplicateCache};
use crate::fs::entry::FileEntry;
use crate::fs::preview::TextPreview;
use crate::git::branch::BranchInfo;
use crate::git::status::GitFileStatus;
use crate::nav::bookmarks::Bookmarks;
use crate::nav::filter::{entries_view, fuzzy_filter, fuzzy_hits, score_order, FuzzyMatch};
use crate::sort::is_stable_sort_by;
use crate::text::{chars_of, string_from_chars};
use crate::fs::duplicates::{file_count, groups_view, CachedFileInfo, FileInfoView};
use crate::nav::panel::PanelView;
use crate::text::{concat, path_eq, path_file_name, path_parent, std_file_name, to_owned_string};
use crate::tui::app::{
    next_sort_field, same_tab, shown_listing, PanelState, PanelStateView, TabEntry, TabGroup, MAX_TABS,
};
use crate::nav::filter::{SortDirection, SortField};
use crate::nav::panel::{clamp_selection, enter_dir, panel_back, panel_forward};
use crate::text::{std_parent, std_path_eq};
use crate::tui::background::ScanStatus;
use crate::tui::input::{AppMode, ConfirmAction};
use crate::tui::remote_connect::ConnectFormState;

verus! {

/// Context of an active remote session.
#[derive(Debug, Clone)]
pub struct RemoteContext {
    /// Display label like `user@host`.
    pub label: String,
    /// Current remote working directory.
    pub remote_cwd: String,
}

/// The label of a tab showing `dir`: its final component, or `/`.
pub open spec fn dir_label_spec(dir: Seq<char>) -> Seq<char> {
    match std_file_name(dir) {
        Some(n) => n,
        None => "/"@,
    }
}

/// The label of a tab showing `dir`.
pub fn dir_label(dir: &str) -> (r: String)
    ensures
        r@ == dir_label_spec(dir@),
{
    match path_file_name(dir) {
        Some(n) => n,
        None => to_owned_string("/"),
    }
}

/// A directory listing the caller read for a command: the directory (in
/// canonical form where one was asked for) and its raw entries, or the
/// message of the error that reading it raised.
pub type Listing = Result<(String, Vec<FileEntry>), String>;

/// What a command needs read before it can be carried out: a directory to
/// list, and whether to resolve it to its canonical form first (entering a
/// directory).
#[derive(Debug, Clone)]
pub struct ListingRequest {
    pub path: String,
    pub canonicalize: bool,
}

/// Abstract state of an [`App`].
pub struct AppView {
    pub mode: AppMode,
    pub left: TabGroup,
    pub right: TabGroup,
    pub active_panel: int,
    pub dual_mode: bool,
    pub should_quit: bool,
    pub status_message: Option<String>,
    pub search_results: Seq<FuzzyMatch>,
    pub search_selected: int,
    pub bookmarks: Bookmarks,
    pub recent_results: Seq<FileEntry>,
    pub recent_selected: int,
    pub duplicate_cache: DuplicateCache,
    pub duplicate_selected: int,
    pub scan_status: ScanStatus,
    pub keymap: Keymap,
    pub action_registry: ActionRegistry,
    pub theme: Theme,
    pub show_icons: bool,
    pub pager_lines: Seq<String>,
    pub pager_file: Option<String>,
    pub remote_context: Option<RemoteContext>,
    pub connect_form: ConnectFormState,
    pub terminal_visible: bool,
}

impl AppView {
    /// The tab group of panel `i`.
    pub open spec fn group(self, i: int) -> TabGroup {
        if i == 0 {
            self.left
        } else {
            self.right
        }
    }

    /// The tab group of the active panel.
    pub open spec fn active_group(self) -> TabGroup {
        self.group(self.active_panel)
    }

    /// The active tab of the active panel.
    pub open spec fn active_tab(self) -> TabEntry {
        self.active_group()@.tabs[self.active_group()@.active]
    }

    /// The state with the tab group of the active panel replaced.
    pub open spec fn with_active_group(self, g: TabGroup) -> AppView {
        if self.active_panel == 0 {
            AppView { left: g, ..self }
        } else {
            AppView { right: g, ..self }
        }
    }

    /// Both tab groups are well formed, a panel is active, the keymap and
    /// bookmarks are well formed.
    pub open spec fn wf(self) -> bool {
        &&& self.left.wf()
        &&& self.right.wf()
        &&& 0 <= self.active_panel < 2
        &&& self.keymap.wf()
        &&& self.bookmarks.wf()
    }
}

/// Top-level application state.
#[derive(Debug)]
pub struct App {
    mode: AppMode,
    left: TabGroup,
    right: TabGroup,
    active_panel: usize,
    dual_mode: bool,
    should_quit: bool,
    status_message: Option<String>,
    search_results: Vec<FuzzyMatch>,
    search_selected: usize,
    bookmarks: Bookmarks,
    recent_results: Vec<FileEntry>,
    recent_selected: usize,
    duplicate_cache: DuplicateCache,
    duplicate_selected: usize,
    scan_status: ScanStatus,
    keymap: Keymap,
    action_registry: ActionRegistry,
    theme: Theme,
    show_icons: bool,
    pager_lines: Vec<String>,
    pager_file: Option<String>,
    remote_context: Option<RemoteContext>,
    connect_form: ConnectFormState,
    terminal_visible: bool,
}

impl View for App {
    type V = AppView;

    closed spec fn view(&self) -> AppView {
        AppView {
            mode: self.mode,
            left: self.left,
            right: self.right,
            active_panel: self.active_panel as int,
            dual_mode: self.dual_mode,
            should_quit: self.should_quit,
            status_message: self.status_message,
            search_results: self.search_results@,
            search_selected: self.search_selected as int,
            bookmarks: self.bookmarks,
            recent_results: self.recent_results@,
            recent_selected: self.recent_selected as int,
            duplicate_cache: self.duplicate_cache,
            duplicate_selected: self.duplicate_selected as int,
            scan_status: self.scan_status,
            keymap: self.keymap,
            action_registry: self.action_registry,
            theme: self.theme,
            show_icons: self.show_icons,
            pager_lines: self.pager_lines@,
            pager_file: self.pager_file,
            remote_context: self.remote_context,
            connect_form: self.connect_form,
            terminal_visible: self.terminal_visible,
        }
    }
}

impl App {
    /// The state is well formed.
    pub open spec fn wf(&self) -> bool {
        self@.wf()
    }

    /// A new application state showing `panel` in both panel slots, the
    /// left one with the git information read for it; normal mode, one tab
    /// per side, nothing selected in the lists.
    pub fn new(
        panel: PanelState,
        git_statuses: Option<Vec<(String, GitFileStatus)>>,
        branch_info: Option<BranchInfo>,
        bookmarks: Bookmarks,
        keymap: Keymap,
        theme: Theme,
        show_icons: bool,
    ) -> (a: Self)
        requires
            keymap.wf(),
            bookmarks.wf(),
        ensures
            a.wf(),
            a@.mode == AppMode::Normal,
            a@.left@.tabs.len() == 1,
            a@.right@.tabs.len() == 1,
            a@.left@.tabs[0] == (TabEntry { panel, git_statuses, branch_info, label: a@.left@.tabs[0].label }),
            a@.left@.tabs[0].label@ == dir_label_spec(panel@.panel.dir@),
            a@.right@.tabs[0].panel@ == panel@,
            a@.right@.tabs[0].git_statuses is None,
            a@.right@.tabs[0].branch_info is None,
            a@.right@.tabs[0].label@ == dir_label_spec(panel@.panel.dir@),
            a@.active_panel == 0,
            !a@.dual_mode,
            !a@.should_quit,
            a@.status_message is None,
            a@.search_results.len() == 0,
            a@.search_selected == 0,
            a@.bookmarks == bookmarks,
            a@.recent_results.len() == 0,
            a@.recent_selected == 0,
            a@.duplicate_cache.groups@.len() == 0,
            a@.duplicate_selected == 0,
            a@.scan_status == ScanStatus::Idle,
            a@.keymap == keymap,
            a@.theme == theme,
            a@.show_icons == show_icons,
            a@.pager_lines.len() == 0,
            a@.pager_file is None,
            a@.remote_context is None,
            !a@.terminal_visible,
    {
        let label = dir_label(panel.current_dir());
        let right_panel = panel.duplicate();
        let right_label = label.clone();
        let left_tab = TabEntry { panel, git_statuses, branch_info, label };
        let right_tab = TabEntry { panel: right_panel, git_statuses: None, branch_info: None, label: right_label };
        App {
            mode: AppMode::Normal,
            left: TabGroup::new(left_tab),
            right: TabGroup::new(right_tab),
            active_panel: 0,
            dual_mode: false,
            should_quit: false,
            status_message: None,
            search_results: Vec::new(),
            search_selected: 0,
            bookmarks,
            recent_results: Vec::new(),
            recent_selected: 0,
            duplicate_cache: DuplicateCache::default(),
            duplicate_selected: 0,
            scan_status: ScanStatus::Idle,
            keymap,
            action_registry: ActionRegistry::new(),
            theme,
            show_icons,
            pager_lines: Vec::new(),
            pager_file: None,
            remote_context: None,
            connect_form: ConnectFormState::default(),
            terminal_visible: false,
        }
    }

    /// The tab group of the active panel.
    fn group(&self) -> (g: &TabGroup)
        requires
            self.wf(),
        ensures
            *g == self@.active_group(),
    {
        if self.active_panel == 0 {
            &self.left
        } else {
            &self.right
        }
    }

    /// The current mode.
    pub fn mode(&self) -> (r: &AppMode)
        ensures
            *r == self@.mode,
    {
        &self.mode
    }

    /// The panel of the active tab of the active panel.
    pub fn panel(&self) -> (r: &PanelState)
        requires
            self.wf(),
        ensures
            *r == self@.active_tab().panel,
    {
        &self.group().active_tab().panel
    }

    /// Whether the application is about to quit.
    pub fn should_quit(&self) -> (r: bool)
        ensures
            r == self@.should_quit,
    {
        self.should_quit
    }

    /// The status message, if any.
    pub fn status_message(&self) -> (r: Option<&str>)
        ensures
            r is None <==> self@.status_message is None,
            r matches Some(m) ==> m@ == self@.status_message.unwrap()@,
    {
        match &self.status_message {
            Some(m) => Some(m.as_str()),
            None => None,
        }
    }

    /// Git statuses of the active tab.
    pub fn git_statuses(&self) -> (r: Option<&Vec<(String, GitFileStatus)>>)
        requires
            self.wf(),
        ensures
            r matches Some(v) ==> self@.active_tab().git_statuses == Some(*v),
            r is None <==> self@.active_tab().git_statuses is None,
    {
        self.group().active_tab().git_statuses.as_ref()
    }

    /// Branch information of the active tab.
    pub fn branch_info(&self) -> (r: Option<&BranchInfo>)
        requires
            self.wf(),
        ensures
            r matches Some(b) ==> self@.active_tab().branch_info == Some(*b),
            r is None <==> self@.active_tab().branch_info is None,
    {
        self.group().active_tab().branch_info.as_ref()
    }

    /// Whether dual panel mode is on.
    pub fn is_dual_mode(&self) -> (r: bool)
        ensures
            r == self@.dual_mode,
    {
        self.dual_mode
    }

    /// Index of the active panel (0 or 1).
    pub fn active_panel_index(&self) -> (r: usize)
        ensures
            r == self@.active_panel,
    {
        self.active_panel
    }

    /// The panel of the left slot's active tab.
    pub fn left_panel(&self) -> (r: &PanelState)
        requires
            self.wf(),
        ensures
            *r == self@.left@.tabs[self@.left@.active].panel,
    {
        &self.left.active_tab().panel
    }

    /// The panel of the right slot's active tab.
    pub fn right_panel(&self) -> (r: &PanelState)
        requires
            self.wf(),
        ensures
            *r == self@.right@.tabs[self@.right@.active].panel,
    {
        &self.right.active_tab().panel
    }

    /// Git statuses of the left slot's active tab.
    pub fn left_git_statuses(&self) -> (r: Option<&Vec<(String, GitFileStatus)>>)
        requires
            self.wf(),
        ensures
            r matches Some(v) ==> self@.left@.tabs[self@.left@.active].git_statuses == Some(*v),
            r is None <==> self@.left@.tabs[self@.left@.active].git_statuses is None,
    {
        self.left.active_tab().git_statuses.as_ref()
    }

    /// Git statuses of the right slot's active tab.
    pub fn right_git_statuses(&self) -> (r: Option<&Vec<(String, GitFileStatus)>>)
        requires
            self.wf(),
        ensures
            r matches Some(v) ==> self@.right@.tabs[self@.right@.active].git_statuses == Some(*v),
            r is None <==> self@.right@.tabs[self@.right@.active].git_statuses is None,
    {
        self.right.active_tab().git_statuses.as_ref()
    }

    /// Branch information of the left slot's active tab.
    pub fn left_branch_info(&self) -> (r: Option<&BranchInfo>)
        requires
            self.wf(),
        ensures
            r matches Some(b) ==> self@.left@.tabs[self@.left@.active].branch_info == Some(*b),
            r is None <==> self@.left@.tabs[self@.left@.active].branch_info is None,
    {
        self.left.active_tab().branch_info.as_ref()
    }

    /// Branch information of the right slot's active tab.
    pub fn right_branch_info(&self) -> (r: Option<&BranchInfo>)
        requires
            self.wf(),
        ensures
            r matches Some(b) ==> self@.right@.tabs[self@.right@.active].branch_info == Some(*b),
            r is None <==> self@.right@.tabs[self@.right@.active].branch_info is None,
    {
        self.right.active_tab().branch_info.as_ref()
    }

    /// The tab group of the active panel.
    pub fn active_tab_group(&self) -> (r: &TabGroup)
        requires
            self.wf(),
        ensures
            *r == self@.active_group(),
    {
        self.group()
    }

    /// The tab group of panel `panel_idx` (0 or 1).
    pub fn tab_group(&self, panel_idx: usize) -> (r: &TabGroup)
        requires
            panel_idx < 2,
        ensures
            *r == self@.group(panel_idx as int),
    {
        if panel_idx == 0 {
            &self.left
        } else {
            &self.right
        }
    }

    /// The search results.
    pub fn search_results(&self) -> (r: &[FuzzyMatch])
        ensures
            r@ == self@.search_results,
    {
        self.search_results.as_slice()
    }

    /// The cursor in the search results.
    pub fn search_selected(&self) -> (r: usize)
        ensures
            r == self@.search_selected,
    {
        self.search_selected
    }

    /// The bookmarks.
    pub fn bookmarks(&self) -> (r: &Bookmarks)
        ensures
            *r == self@.bookmarks,
    {
        &self.bookmarks
    }

    /// The recently changed files.
    pub fn recent_results(&self) -> (r: &[FileEntry])
        ensures
            r@ == self@.recent_results,
    {
        self.recent_results.as_slice()
    }

    /// The cursor in the recent files.
    pub fn recent_selected(&self) -> (r: usize)
        ensures
            r == self@.recent_selected,
    {
        self.recent_selected
    }

    /// The groups of duplicate files.
    pub fn duplicate_results(&self) -> (r: &[CachedDuplicateGroup])
        ensures
            r@ == self@.duplicate_cache.groups@,
    {
        self.duplicate_cache.groups.as_slice()
    }

    /// The cursor over all files of all duplicate groups.
    pub fn duplicate_selected(&self) -> (r: usize)
        ensures
            r == self@.duplicate_selected,
    {
        self.duplicate_selected
    }

    /// The duplicate cache.
    pub fn duplicate_cache(&self) -> (r: &DuplicateCache)
        ensures
            *r == self@.duplicate_cache,
    {
        &self.duplicate_cache
    }

    /// The background scanner's status.
    pub fn scan_status(&self) -> (r: &ScanStatus)
        ensures
            *r == self@.scan_status,
    {
        &self.scan_status
    }

    /// The key bindings.
    pub fn keymap(&self) -> (r: &Keymap)
        ensures
            *r == self@.keymap,
    {
        &self.keymap
    }

    /// The action registry.
    pub fn action_registry(&self) -> (r: &ActionRegistry)
        ensures
            *r == self@.action_registry,
    {
        &self.action_registry
    }

    /// The theme.
    pub fn theme(&self) -> (r: &Theme)
        ensures
            *r == self@.theme,
    {
        &self.theme
    }

    /// Whether icons are shown.
    pub fn show_icons(&self) -> (r: bool)
        ensures
            r == self@.show_icons,
    {
        self.show_icons
    }

    /// The lines shown by the pager.
    pub fn pager_lines(&self) -> (r: &[String])
        ensures
            r@ == self@.pager_lines,
    {
        self.pager_lines.as_slice()
    }

    /// The file shown by the pager.
    pub fn pager_file(&self) -> (r: Option<&str>)
        ensures
            r is None <==> self@.pager_file is None,
            r matches Some(f) ==> f@ == self@.pager_file.unwrap()@,
    {
        match &self.pager_file {
            Some(f) => Some(f.as_str()),
            None => None,
        }
    }

    /// Whether a remote server is being browsed.
    pub fn is_remote(&self) -> (r: bool)
        ensures
            r == self@.remote_context is Some,
    {
        self.remote_context.is_some()
    }

    /// The remote context, if connected.
    pub fn remote_context(&self) -> (r: Option<&RemoteContext>)
        ensures
            r is None <==> self@.remote_context is None,
            r matches Some(c) ==> self@.remote_context == Some(*c),
    {
        self.remote_context.as_ref()
    }

    /// The connection form.
    pub fn connect_form(&self) -> (r: &ConnectFormState)
        ensures
            *r == self@.connect_form,
    {
        &self.connect_form
    }

    /// Whether the terminal panel is visible.
    pub fn terminal_visible(&self) -> (r: bool)
        ensures
            r == self@.terminal_visible,
    {
        self.terminal_visible
    }

    /// Replaces the duplicate cache.
    pub fn with_duplicate_cache(self, cache: DuplicateCache) -> (a: Self)
        ensures
            a@ == (AppView { duplicate_cache: cache, ..self@ }),
    {
        App { duplicate_cache: cache, ..self }
    }

    /// Updates the scanner status.
    pub fn with_scan_status(self, status: ScanStatus) -> (a: Self)
        ensures
            a@ == (AppView { scan_status: status, ..self@ }),
    {
        App { scan_status: status, ..self }
    }

    /// Switches to `mode`.
    pub fn with_mode(self, mode: AppMode) -> (a: Self)
        ensures
            a@ == (AppView { mode, ..self@ }),
    {
        App { mode, ..self }
    }

    /// Makes panel `index` active; indices beyond 1 change nothing.
    pub fn with_active_panel(self, index: usize) -> (a: Self)
        ensures
            a@ == if index > 1 { self@ } else { AppView { active_panel: index as int, ..self@ } },
    {
        if index > 1 {
            return self;
        }
        App { active_panel: index, ..self }
    }

    /// Marks the application for quitting.
    pub fn with_quit(self) -> (a: Self)
        ensures
            a@ == (AppView { should_quit: true, ..self@ }),
    {
        App { should_quit: true, ..self }
    }

    /// Sets the status message.
    pub fn with_status(self, msg: String) -> (a: Self)
        ensures
            a@ == (AppView { status_message: Some(msg), ..self@ }),
    {
        App { status_message: Some(msg), ..self }
    }

    /// Clears the status message.
    pub fn with_clear_status(self) -> (a: Self)
        ensures
            a@ == (AppView { status_message: None, ..self@ }),
    {
        App { status_message: None, ..self }
    }

    /// Sets the remote context.
    pub fn with_remote_context(self, ctx: Option<RemoteContext>) -> (a: Self)
        ensures
            a@ == (AppView { remote_context: ctx, ..self@ }),
    {
        App { remote_context: ctx, ..self }
    }

    /// Shows or hides the terminal panel.
    pub fn with_terminal_visible(self, visible: bool) -> (a: Self)
        ensures
            a@ == (AppView { terminal_visible: visible, ..self@ }),
    {
        App { terminal_visible: visible, ..self }
    }

    /// Replaces the connection form.
    pub fn with_connect_form(self, form: ConnectFormState) -> (a: Self)
        ensures
            a@ == (AppView { connect_form: form, ..self@ }),
    {
        App { connect_form: form, ..self }
    }
}

/// The group `g` with its active tab replaced by `entry`.
pub open spec fn group_with_active(g: TabGroup, entry: TabEntry) -> crate::tui::app::TabGroupView {
    crate::tui::app::TabGroupView { tabs: g@.tabs.update(g@.active, entry), ..g@ }
}

/// `a` is `v` with the active panel's tab group replaced by one whose view is `gv`.
pub open spec fn replaced_active_group(a: AppView, v: AppView, gv: crate::tui::app::TabGroupView) -> bool {
    &&& a.active_group()@ == gv
    &&& a == v.with_active_group(a.active_group())
}

/// Each panel has its own directory, cursor and history: whatever replaces
/// the tabs of the active panel leaves the other panel's tabs, and which
/// panel is active, as they were.
pub proof fn law_panels_independent(a: AppView, v: AppView, gv: crate::tui::app::TabGroupView)
    requires
        v.active_panel == 0 || v.active_panel == 1,
        replaced_active_group(a, v, gv),
    ensures
        a.group(1 - v.active_panel) == v.group(1 - v.active_panel),
        a.active_panel == v.active_panel,
        a.active_group()@ == gv,
{
}

/// The digits of `n` as text.
pub fn number_text(n: usize) -> (r: String)
    ensures
        r@ == crate::text::decimal(n as nat),
{
    let d = crate::text::u64_to_decimal(n as u64);
    crate::text::string_from_chars(d.as_slice())
}

impl App {
    /// Puts `group` in the active panel's slot.
    fn with_group(self, group: TabGroup) -> (a: Self)
        requires
            self.wf(),
            group.wf(),
        ensures
            a@ == self@.with_active_group(group),
            a.wf(),
    {
        if self.active_panel == 0 {
            App { left: group, ..self }
        } else {
            App { right: group, ..self }
        }
    }

    /// Takes the active panel's tab group out, leaving a placeholder group
    /// (a copy of the first tab) in its slot.
    fn split_group(self) -> (r: (Self, TabGroup))
        requires
            self.wf(),
        ensures
            r.1 == self@.active_group(),
            r.0@ == self@.with_active_group(r.0@.active_group()),
            r.0.wf(),
    {
        if self.active_panel == 0 {
            let placeholder = TabGroup::new(self.left.tabs()[0].duplicate());
            let group = self.left;
            (App { left: placeholder, ..self }, group)
        } else {
            let placeholder = TabGroup::new(self.right.tabs()[0].duplicate());
            let group = self.right;
            (App { right: placeholder, ..self }, group)
        }
    }

    /// Shows `panel` in the active tab, with the git information read for
    /// its directory (dropped while browsing a remote server) and a label
    /// taken from the directory's name.
    pub fn with_panel(
        self,
        panel: PanelState,
        git_statuses: Option<Vec<(String, GitFileStatus)>>,
        branch_info: Option<BranchInfo>,
    ) -> (a: Self)
        requires
            self.wf(),
        ensures
            a.wf(),
            replaced_active_group(
                a@,
                self@,
                group_with_active(self@.active_group(), a@.active_tab()),
            ),
            a@.active_tab() == (TabEntry {
                panel,
                git_statuses: if self@.remote_context is Some { None } else { git_statuses },
                branch_info: if self@.remote_context is Some { None } else { branch_info },
                label: a@.active_tab().label,
            }),
            a@.active_tab().label@ == dir_label_spec(panel@.panel.dir@),
    {
        let remote = self.remote_context.is_some();
        let (g, b) = if remote {
            (None, None)
        } else {
            (git_statuses, branch_info)
        };
        let label = dir_label(panel.current_dir());
        let entry = TabEntry { panel, git_statuses: g, branch_info: b, label };
        let (app, group) = self.split_group();
        let group = group.with_updated_active(entry);
        app.with_group(group)
    }

    /// Toggles dual panel mode. Entering it shows the right slot's panel
    /// again with the git information read for its directory.
    pub fn with_toggle_dual_mode(
        self,
        git_statuses: Option<Vec<(String, GitFileStatus)>>,
        branch_info: Option<BranchInfo>,
    ) -> (a: Self)
        requires
            self.wf(),
        ensures
            a.wf(),
            self@.dual_mode ==> a@ == (AppView { dual_mode: false, ..self@ }),
            !self@.dual_mode ==> {
                let old_tab = self@.right@.tabs[self@.right@.active];
                let new_tab = a@.right@.tabs[a@.right@.active];
                &&& a@ == (AppView { dual_mode: true, right: a@.right, ..self@ })
                &&& a@.right@ == group_with_active(self@.right, new_tab)
                &&& new_tab.panel@ == old_tab.panel@
                &&& new_tab.git_statuses == git_statuses
                &&& new_tab.branch_info == branch_info
                &&& new_tab.label@ == dir_label_spec(old_tab.panel@.panel.dir@)
            },
    {
        if self.dual_mode {
            return App { dual_mode: false, ..self };
        }
        let right_tab = self.right.active_tab();
        let panel = right_tab.panel.duplicate();
        let label = dir_label(panel.current_dir());
        let entry = TabEntry { panel, git_statuses, branch_info, label };
        let right = self.right.with_updated_active(entry);
        App { dual_mode: true, right, ..self }
    }

    /// Opens a new tab showing what the active tab shows (at most 9 tabs).
    pub fn with_new_tab(self) -> (a: Self)
        requires
            self.wf(),
        ensures
            a.wf(),
            self@.active_group()@.tabs.len() >= MAX_TABS ==> a@ == (AppView {
                status_message: a@.status_message,
                ..self@
            }) && a@.status_message.unwrap()@ == "Maximum 9 tabs reached"@,
            self@.active_group()@.tabs.len() < MAX_TABS ==> {
                let g = self@.active_group()@;
                let new_tab = a@.active_tab();
                &&& same_tab(new_tab, self@.active_tab())
                &&& replaced_active_group(
                    AppView { status_message: self@.status_message, ..a@ },
                    self@,
                    crate::tui::app::TabGroupView { tabs: g.tabs.insert(g.active + 1, new_tab), active: g.active + 1 },
                )
                &&& a@.status_message.unwrap()@ == "Tab "@ + crate::text::decimal((g.active + 2) as nat) + " opened"@
            },
    {
        if self.group().tab_count() >= MAX_TABS {
            return self.with_status(to_owned_string("Maximum 9 tabs reached"));
        }
        let new_entry = self.group().active_tab().duplicate();
        let (app, group) = self.split_group();
        let group = group.with_new_tab(new_entry);
        let num = number_text(group.active_tab_index() + 1);
        let msg1 = concat("Tab ", num.as_str());
        let msg = concat(msg1.as_str(), " opened");
        let app = app.with_group(group);
        app.with_status(msg)
    }

    /// Closes the active tab; the last tab stays.
    pub fn with_close_tab(self) -> (a: Self)
        requires
            self.wf(),
        ensures
            a.wf(),
            self@.active_group()@.tabs.len() <= 1 ==> a@ == (AppView {
                status_message: a@.status_message,
                ..self@
            }) && a@.status_message.unwrap()@ == "Cannot close last tab"@,
            self@.active_group()@.tabs.len() > 1 ==> replaced_active_group(
                a@,
                self@,
                crate::tui::app::close_tab(self@.active_group()@, self@.active_group()@.active),
            ),
    {
        if self.group().tab_count() <= 1 {
            return self.with_status(to_owned_string("Cannot close last tab"));
        }
        let active = self.group().active_tab_index();
        let (app, group) = self.split_group();
        let group = group.with_closed_tab(active);
        app.with_group(group)
    }

    /// Switches to the next tab (wrapping); nothing changes with one tab.
    pub fn with_next_tab(self) -> (a: Self)
        requires
            self.wf(),
        ensures
            a.wf(),
            self@.active_group()@.tabs.len() <= 1 ==> a@ == self@,
            self@.active_group()@.tabs.len() > 1 ==> replaced_active_group(
                a@,
                self@,
                crate::tui::app::TabGroupView {
                    active: crate::tui::app::next_active(self@.active_group()@),
                    ..self@.active_group()@
                },
            ),
    {
        if self.group().tab_count() <= 1 {
            return self;
        }
        let (app, group) = self.split_group();
        let group = group.with_next_tab();
        app.with_group(group)
    }

    /// Switches to the previous tab (wrapping); nothing changes with one tab.
    pub fn with_prev_tab(self) -> (a: Self)
        requires
            self.wf(),
        ensures
            a.wf(),
            self@.active_group()@.tabs.len() <= 1 ==> a@ == self@,
            self@.active_group()@.tabs.len() > 1 ==> replaced_active_group(
                a@,
                self@,
                crate::tui::app::TabGroupView {
                    active: crate::tui::app::prev_active(self@.active_group()@),
                    ..self@.active_group()@
                },
            ),
    {
        if self.group().tab_count() <= 1 {
            return self;
        }
        let (app, group) = self.split_group();
        let group = group.with_prev_tab();
        app.with_group(group)
    }

    /// Switches to tab `index`; out-of-range indices change nothing.
    pub fn with_select_tab(self, index: usize) -> (a: Self)
        requires
            self.wf(),
        ensures
            a.wf(),
            index >= self@.active_group()@.tabs.len() ==> a@ == self@,
            index < self@.active_group()@.tabs.len() ==> replaced_active_group(
                a@,
                self@,
                crate::tui::app::TabGroupView { active: index as int, ..self@.active_group()@ },
            ),
    {
        if index >= self.group().tab_count() {
            return self;
        }
        let (app, group) = self.split_group();
        let group = group.with_active_tab(index);
        app.with_group(group)
    }

    /// Shows the remote directory `path` with the `entries` the server
    /// listed, sorted and filtered by the active panel's settings; remote
    /// directories have no git information.
    pub fn with_remote_directory(self, path: String, entries: Vec<FileEntry>) -> (a: Self)
        requires
            self.wf(),
        ensures
            a.wf(),
            remote_listed(a@, self@, path, entries@),
    {
        let panel = self.group().active_tab().panel.navigate_to(path, entries.as_slice());
        let label = dir_label(panel.current_dir());
        let entry = TabEntry { panel, git_statuses: None, branch_info: None, label };
        let (app, group) = self.split_group();
        let group = group.with_updated_active(entry);
        app.with_group(group)
    }
}

/// `a` is `s` showing, in the active tab, the remote directory `path` with
/// the `entries` the server listed, entered like a local directory and
/// without git information.
pub open spec fn remote_listed(a: AppView, s: AppView, path: String, entries: Seq<FileEntry>) -> bool {
    &&& replaced_active_group(a, s, group_with_active(s.active_group(), a.active_tab()))
    &&& a.active_tab().panel@.panel.dir == path
    &&& shown_listing(
        entries,
        s.active_tab().panel@.sort_field,
        s.active_tab().panel@.sort_direction,
        s.active_tab().panel@.show_hidden,
        a.active_tab().panel@.panel.entries,
    )
    &&& a.active_tab().panel@.panel == enter_dir(s.active_tab().panel@.panel, path, a.active_tab().panel@.panel.entries)
    &&& a.active_tab().panel@.show_hidden == s.active_tab().panel@.show_hidden
    &&& a.active_tab().panel@.sort_field == s.active_tab().panel@.sort_field
    &&& a.active_tab().panel@.sort_direction == s.active_tab().panel@.sort_direction
    &&& a.active_tab().git_statuses is None
    &&& a.active_tab().branch_info is None
    &&& a.active_tab().label@ == dir_label_spec(path@)
}

/// `a` is `s` in search mode with the query `q`, the active panel's
/// entries searched for it, cursor on the best match.
pub open spec fn researched(s: AppView, q: Seq<char>, a: AppView) -> bool {
    &&& a.mode matches AppMode::Search(m) && m@ == q
    &&& searched(s.active_tab().panel@.panel.entries, q, a.search_results)
    &&& a == (AppView { mode: a.mode, search_results: a.search_results, search_selected: 0, ..s })
}

/// `a` is `s` back in normal mode after adding a bookmark `label` for the
/// current directory; an empty label is refused with a message.
pub open spec fn bookmark_added(s: AppView, label: Seq<char>, a: AppView) -> bool {
    &&& label.len() == 0 ==> a == (AppView { mode: AppMode::Normal, status_message: a.status_message, ..s })
        && a.status_message is Some && a.status_message.unwrap()@ == "Bookmark label cannot be empty"@
    &&& label.len() > 0 ==> {
        &&& a == (AppView {
            mode: AppMode::Normal,
            bookmarks: a.bookmarks,
            status_message: a.status_message,
            ..s
        })
        &&& a.bookmarks@ == s.bookmarks@.insert(label, s.active_tab().panel@.panel.dir@)
        &&& a.status_message is Some
        &&& a.status_message.unwrap()@ == "Bookmark '"@ + label + "' added"@
    }
}

/// `a` is `s` with the bookmark at position `selected` of the sorted labels
/// removed, the list still open with the cursor on a remaining entry;
/// past the last bookmark nothing changes.
pub open spec fn bookmark_removed(s: AppView, selected: usize, a: AppView) -> bool {
    &&& selected >= s.bookmarks.label_list().len() ==> a == s
    &&& selected < s.bookmarks.label_list().len() ==> {
        let label = s.bookmarks.label_list()[selected as int];
        let remaining = s.bookmarks@.remove(label);
        &&& a.bookmarks@ == remaining
        &&& a.mode == AppMode::BookmarkList {
            selected: if selected > 0 && selected >= remaining.len() { (selected - 1) as usize } else { selected },
        }
        &&& a.status_message is Some
        &&& a.status_message.unwrap()@ == "Bookmark '"@ + label + "' removed"@
        &&& a == (AppView { mode: a.mode, bookmarks: a.bookmarks, status_message: a.status_message, ..s })
    }
}

/// `a` is `s` asking to confirm the deletion of the duplicate file under
/// the cursor; past the last file nothing changes.
pub open spec fn duplicate_delete_asked(s: AppView, a: AppView) -> bool {
    match flat_file(groups_view(s.duplicate_cache.groups@), s.duplicate_selected) {
        None => a == s,
        Some(f) => (a.mode matches AppMode::Confirm(ConfirmAction::DeleteDuplicate(p)) && p@ == f.path)
            && a == (AppView { mode: a.mode, ..s }),
    }
}

/// `results` are the fuzzy matches of `query` against `entries`, best first.
pub open spec fn searched(entries: Seq<FileEntry>, query: Seq<char>, results: Seq<FuzzyMatch>) -> bool {
    is_stable_sort_by(
        results.map_values(|m: FuzzyMatch| m@),
        fuzzy_hits(entries_view(entries), query),
        score_order(),
    )
}

/// The cursor after moving down a list of `len` items: one further, but
/// not past the last item; an empty list keeps it.
pub open spec fn cursor_down(sel: int, len: int) -> int {
    if len == 0 {
        sel
    } else if sel >= len - 1 {
        len - 1
    } else {
        sel + 1
    }
}

/// The cursor after moving up: one back, not below zero.
pub open spec fn cursor_up(sel: int) -> int {
    if sel > 0 {
        sel - 1
    } else {
        0
    }
}

/// The file at flat position `idx` when the files of all groups are
/// counted one after the other.
pub open spec fn flat_file(groups: Seq<crate::fs::duplicates::GroupView>, idx: int) -> Option<FileInfoView>
    decreases groups.len(),
{
    if groups.len() == 0 || idx < 0 {
        None
    } else if idx < groups[0].files.len() {
        Some(groups[0].files[idx])
    } else {
        flat_file(groups.skip(1), idx - groups[0].files.len())
    }
}

/// The number of files of all groups, capped at `usize::MAX`.
pub open spec fn capped_count(groups: Seq<crate::fs::duplicates::GroupView>) -> int {
    if file_count(groups) > usize::MAX {
        usize::MAX as int
    } else {
        file_count(groups) as int
    }
}

/// Finds the file at flat position `idx` across the groups.
fn find_flat_file(groups: &Vec<CachedDuplicateGroup>, idx: usize) -> (r: Option<&CachedFileInfo>)
    ensures
        r is None <==> flat_file(groups_view(groups@), idx as int) is None,
        r matches Some(f) ==> flat_file(groups_view(groups@), idx as int) == Some(f@),
{
    let ghost gv = groups_view(groups@);
    let mut g: usize = 0;
    let mut rest: usize = idx;
    proof {
        assert(gv.skip(0) =~= gv);
    }
    while g < groups.len()
        invariant
            g <= groups@.len(),
            gv == groups_view(groups@),
            flat_file(gv, idx as int) == flat_file(gv.skip(g as int), rest as int),
        decreases groups.len() - g,
    {
        let files = &groups[g].files;
        proof {
            assert(gv.skip(g as int)[0] == groups@[g as int]@);
            assert(gv.skip(g as int).skip(1) =~= gv.skip(g + 1));
        }
        if rest < files.len() {
            return Some(&files[rest]);
        }
        rest = rest - files.len();
        g = g + 1;
    }
    proof {
        assert(gv.skip(g as int).len() == 0);
    }
    None
}

impl App {
    /// Appends `c` to the search query and searches the active panel's
    /// entries again, the cursor on the best match. Outside search mode
    /// nothing changes.
    pub fn search_push_char(self, c: char) -> (a: Self)
        requires
            self.wf(),
        ensures
            !(self@.mode is Search) ==> a@ == self@,
            self@.mode matches AppMode::Search(q) ==> researched(self@, q@.push(c), a@),
    {
        let query = match &self.mode {
            AppMode::Search(q) => {
                let mut cs = chars_of(q.as_str());
                cs.push(c);
                string_from_chars(cs.as_slice())
            },
            _ => {
                return self;
            },
        };
        let results = fuzzy_filter(self.panel().entries(), query.as_str());
        App { mode: AppMode::Search(query), search_results: results, search_selected: 0, ..self }
    }

    /// Removes the last character of the search query and searches again.
    /// Outside search mode nothing changes.
    pub fn search_pop_char(self) -> (a: Self)
        requires
            self.wf(),
        ensures
            !(self@.mode is Search) ==> a@ == self@,
            self@.mode matches AppMode::Search(q) ==> researched(
                self@,
                if q@.len() > 0 { q@.drop_last() } else { q@ },
                a@,
            ),
    {
        let query = match &self.mode {
            AppMode::Search(q) => {
                let mut cs = chars_of(q.as_str());
                if cs.len() > 0 {
                    cs.pop();
                }
                string_from_chars(cs.as_slice())
            },
            _ => {
                return self;
            },
        };
        let results = fuzzy_filter(self.panel().entries(), query.as_str());
        App { mode: AppMode::Search(query), search_results: results, search_selected: 0, ..self }
    }

    /// Moves the search cursor down.
    pub fn search_move_down(self) -> (a: Self)
        ensures
            a@ == (AppView {
                search_selected: cursor_down(self@.search_selected, self@.search_results.len() as int),
                ..self@
            }),
    {
        if self.search_results.len() == 0 {
            return self;
        }
        let max = self.search_results.len() - 1;
        let next = if self.search_selected >= max {
            max
        } else {
            self.search_selected + 1
        };
        App { search_selected: next, ..self }
    }

    /// Moves the search cursor up.
    pub fn search_move_up(self) -> (a: Self)
        ensures
            a@ == (AppView { search_selected: cursor_up(self@.search_selected), ..self@ }),
    {
        let next = if self.search_selected > 0 {
            self.search_selected - 1
        } else {
            0
        };
        App { search_selected: next, ..self }
    }

    /// Adds a bookmark for the current directory under `label`, and returns
    /// to normal mode; an empty label is refused with a message.
    pub fn bookmark_add(self, label: &str) -> (a: Self)
        requires
            self.wf(),
        ensures
            a.wf(),
            bookmark_added(self@, label@, a@),
    {
        if label.is_empty() {
            return self.with_mode(AppMode::Normal).with_status(to_owned_string("Bookmark label cannot be empty"));
        }
        let path = to_owned_string(self.panel().current_dir());
        let bookmarks = self.bookmarks.with_bookmark(to_owned_string(label), path);
        let m1 = concat("Bookmark '", label);
        let msg = concat(m1.as_str(), "' added");
        App { mode: AppMode::Normal, bookmarks, status_message: Some(msg), ..self }
    }

    /// Removes the bookmark at position `selected` of the sorted labels and
    /// keeps the list open with the cursor on a remaining entry.
    pub fn bookmark_delete(self, selected: usize) -> (a: Self)
        requires
            self.wf(),
        ensures
            a.wf(),
            bookmark_removed(self@, selected, a@),
    {
        let entries = self.bookmarks.iter();
        proof {
            self.bookmarks.lemma_label_list();
        }
        if selected >= entries.len() {
            return self;
        }
        let label = entries[selected].0.clone();
        proof {
            assert(label@ == self@.bookmarks.label_list()[selected as int]);
        }
        let bookmarks = self.bookmarks.without_bookmark(label.as_str());
        let n = bookmarks.len();
        let new_selected = if selected > 0 && selected >= n {
            selected - 1
        } else {
            selected
        };
        let m1 = concat("Bookmark '", label.as_str());
        let msg = concat(m1.as_str(), "' removed");
        App {
            mode: AppMode::BookmarkList { selected: new_selected },
            bookmarks,
            status_message: Some(msg),
            ..self
        }
    }

    /// Shows the recently changed files found under the current directory
    /// (or the error the search raised).
    pub fn load_recent_files(self, found: Result<Vec<FileEntry>, CoreError>) -> (a: Self)
        ensures
            found matches Ok(v) ==> a@ == (AppView {
                mode: AppMode::RecentFiles,
                recent_results: v@,
                recent_selected: 0,
                ..self@
            }),
            found matches Err(e) ==> a@ == (AppView { status_message: a@.status_message, ..self@ })
                && a@.status_message is Some
                && "Error scanning recent files: "@.is_prefix_of(a@.status_message.unwrap()@),
    {
        match found {
            Ok(results) => App { mode: AppMode::RecentFiles, recent_results: results, recent_selected: 0, ..self },
            Err(e) => {
                let msg = concat("Error scanning recent files: ", e.message().as_str());
                proof {
                    assert(msg@.take("Error scanning recent files: "@.len() as int) =~= "Error scanning recent files: "@);
                }
                self.with_status(msg)
            },
        }
    }

    /// Moves the recent files cursor down.
    pub fn recent_move_down(self) -> (a: Self)
        ensures
            a@ == (AppView {
                recent_selected: cursor_down(self@.recent_selected, self@.recent_results.len() as int),
                ..self@
            }),
    {
        if self.recent_results.len() == 0 {
            return self;
        }
        let max = self.recent_results.len() - 1;
        let next = if self.recent_selected >= max {
            max
        } else {
            self.recent_selected + 1
        };
        App { recent_selected: next, ..self }
    }

    /// Moves the recent files cursor up.
    pub fn recent_move_up(self) -> (a: Self)
        ensures
            a@ == (AppView { recent_selected: cursor_up(self@.recent_selected), ..self@ }),
    {
        let next = if self.recent_selected > 0 {
            self.recent_selected - 1
        } else {
            0
        };
        App { recent_selected: next, ..self }
    }

    /// Shows the cached duplicate groups, cursor on the first file.
    pub fn show_duplicate_files(self) -> (a: Self)
        ensures
            a@ == (AppView { mode: AppMode::DuplicateFiles, duplicate_selected: 0, ..self@ }),
    {
        App { mode: AppMode::DuplicateFiles, duplicate_selected: 0, ..self }
    }

    /// Drops the file at `path` from the duplicate cache, and any group left
    /// with fewer than two files.
    pub fn without_duplicate_file(self, path: &str) -> (a: Self)
        ensures
            a@ == (AppView { duplicate_cache: a@.duplicate_cache, ..self@ }),
            groups_view(a@.duplicate_cache.groups@) == crate::fs::duplicates::pruned_groups(
                groups_view(self@.duplicate_cache.groups@),
                crate::fs::duplicates::marks_other_than(groups_view(self@.duplicate_cache.groups@), path@),
            ),
            a@.duplicate_cache.scanned_at == self@.duplicate_cache.scanned_at,
            a@.duplicate_cache.scan_root == self@.duplicate_cache.scan_root,
    {
        App { duplicate_cache: self.duplicate_cache.remove_file(path), ..self }
    }

    /// Asks to confirm the deletion of the duplicate file under the cursor;
    /// nothing changes when the cursor is past the last file.
    pub fn duplicate_delete_selected(self) -> (a: Self)
        ensures
            duplicate_delete_asked(self@, a@),
    {
        let target = match find_flat_file(&self.duplicate_cache.groups, self.duplicate_selected) {
            Some(f) => f.path.clone(),
            None => {
                return self;
            },
        };
        App { mode: AppMode::Confirm(ConfirmAction::DeleteDuplicate(target)), ..self }
    }

    /// Moves the duplicate cursor down over all files of all groups.
    pub fn duplicate_move_down(self) -> (a: Self)
        ensures
            a@ == (AppView {
                duplicate_selected: cursor_down(
                    self@.duplicate_selected,
                    capped_count(groups_view(self@.duplicate_cache.groups@)),
                ),
                ..self@
            }),
    {
        let ghost gv = groups_view(self.duplicate_cache.groups@);
        let mut total: usize = 0;
        for g in 0..self.duplicate_cache.groups.len()
            invariant
                gv == groups_view(self.duplicate_cache.groups@),
                total == if file_count(gv.take(g as int)) > usize::MAX {
                    usize::MAX as int
                } else {
                    file_count(gv.take(g as int)) as int
                },
        {
            proof {
                assert(gv.take(g + 1).drop_last() =~= gv.take(g as int));
            }
            let n = self.duplicate_cache.groups[g].files.len();
            total = if total > usize::MAX - n {
                usize::MAX
            } else {
                total + n
            };
        }
        proof {
            assert(gv.take(gv.len() as int) =~= gv);
        }
        if total == 0 {
            return self;
        }
        let max = total - 1;
        let next = if self.duplicate_selected >= max {
            max
        } else {
            self.duplicate_selected + 1
        };
        App { duplicate_selected: next, ..self }
    }

    /// Moves the duplicate cursor up.
    pub fn duplicate_move_up(self) -> (a: Self)
        ensures
            a@ == (AppView { duplicate_selected: cursor_up(self@.duplicate_selected), ..self@ }),
    {
        let next = if self.duplicate_selected > 0 {
            self.duplicate_selected - 1
        } else {
            0
        };
        App { duplicate_selected: next, ..self }
    }

    /// The file the pager would show: the selected entry, unless it is a
    /// directory.
    pub fn pager_target(&self) -> (r: Option<String>)
        requires
            self.wf(),
        ensures
            r is None <==> !(self@.active_tab().panel@.panel.selected < self@.active_tab().panel@.panel.entries.len()
                && !self@.active_tab().panel@.panel.entries[self@.active_tab().panel@.panel.selected]@.is_dir),
            r matches Some(p) ==> p@ == self@.active_tab().panel@.panel.entries[self@.active_tab().panel@.panel.selected]@.path,
    {
        match self.panel().selected_entry() {
            Some(e) => if e.is_dir() {
                None
            } else {
                Some(to_owned_string(e.path()))
            },
            None => None,
        }
    }

    /// Opens the pager on the selected file, given whether the file looks
    /// binary (or could not be read) and its preview. When the selection is
    /// a directory (or there is none) or a binary file, the application is
    /// returned unchanged.
    pub fn enter_pager(self, binary: bool, preview: Result<TextPreview, CoreError>) -> (a: Self)
        requires
            self.wf(),
        ensures
            a.wf(),
            self.pager_target_spec() is None ==> a@ == self@,
            self.pager_target_spec() is Some && binary ==> a@ == self@,
            self.pager_target_spec() is Some && !binary ==> match preview {
                Ok(p) => a@ == (AppView {
                    mode: AppMode::Pager { scroll: 0 },
                    pager_lines: p.lines@,
                    pager_file: a@.pager_file,
                    ..self@
                }) && a@.pager_file is Some && a@.pager_file.unwrap()@ == self.pager_target_spec().unwrap(),
                Err(e) => a@ == (AppView { status_message: a@.status_message, ..self@ })
                    && a@.status_message is Some
                    && "Error reading file: "@.is_prefix_of(a@.status_message.unwrap()@),
            },
    {
        let target = self.pager_target();
        let path = match target {
            Some(p) => p,
            None => {
                return self;
            },
        };
        if binary {
            return self;
        }
        match preview {
            Ok(p) => App { mode: AppMode::Pager { scroll: 0 }, pager_lines: p.lines, pager_file: Some(path), ..self },
            Err(e) => {
                let msg = concat("Error reading file: ", e.message().as_str());
                proof {
                    assert(msg@.take("Error reading file: "@.len() as int) =~= "Error reading file: "@);
                }
                self.with_status(msg)
            },
        }
    }

    /// The file the pager would show, as text.
    pub open spec fn pager_target_spec(&self) -> Option<Seq<char>> {
        let p = self@.active_tab().panel@.panel;
        if p.selected < p.entries.len() && !p.entries[p.selected]@.is_dir {
            Some(p.entries[p.selected]@.path)
        } else {
            None
        }
    }
}

/// `a` shows the panel `pv` in the active tab of `s`, labelled by its
/// directory; everything else stays (the tab's git information is left for
/// [`App::with_git_info`] to refresh).
pub open spec fn shows_panel(a: AppView, s: AppView, pv: PanelStateView) -> bool {
    &&& replaced_active_group(a, s, group_with_active(s.active_group(), a.active_tab()))
    &&& a.active_tab().panel@ == pv
    &&& a.active_tab().label@ == dir_label_spec(pv.panel.dir@)
}

/// `pv` is the panel `old` after entering `dir` with the raw listing `raw`.
pub open spec fn entered(old: PanelStateView, dir: String, raw: Seq<FileEntry>, pv: PanelStateView) -> bool {
    &&& pv.panel.dir == dir
    &&& shown_listing(raw, old.sort_field, old.sort_direction, old.show_hidden, pv.panel.entries)
    &&& pv.panel == enter_dir(old.panel, dir, pv.panel.entries)
    &&& pv.show_hidden == old.show_hidden
    &&& pv.sort_field == old.sort_field
    &&& pv.sort_direction == old.sort_direction
}

/// `pv` is the panel `old` showing the fresh listing `raw` under the given
/// settings, the cursor kept where it fits.
pub open spec fn relisted(
    old: PanelStateView,
    raw: Seq<FileEntry>,
    field: SortField,
    direction: SortDirection,
    show_hidden: bool,
    pv: PanelStateView,
) -> bool {
    &&& shown_listing(raw, field, direction, show_hidden, pv.panel.entries)
    &&& pv.panel == (PanelView {
        entries: pv.panel.entries,
        selected: clamp_selection(old.panel.selected, pv.panel.entries.len() as int),
        ..old.panel
    })
    &&& pv.show_hidden == show_hidden
    &&& pv.sort_field == field
    &&& pv.sort_direction == direction
}

/// `pv` is the panel after a history step whose panel is `stepped`, in the
/// directory `dir` the step handed out, showing its listing `raw`.
pub open spec fn stepped_to(old: PanelStateView, stepped: PanelView, dir: String, raw: Seq<FileEntry>, pv: PanelStateView) -> bool {
    &&& shown_listing(raw, old.sort_field, old.sort_direction, old.show_hidden, pv.panel.entries)
    &&& pv.panel == (PanelView {
        dir,
        entries: pv.panel.entries,
        selected: clamp_selection(stepped.selected, pv.panel.entries.len() as int),
        ..stepped
    })
    &&& pv.show_hidden == old.show_hidden
    &&& pv.sort_field == old.sort_field
    &&& pv.sort_direction == old.sort_direction
}

/// The directory a command needs listed, and whether to resolve it first.
pub open spec fn request_of(v: AppView, cmd: Command) -> Option<(Seq<char>, bool)> {
    let p = v.active_tab().panel@;
    match cmd {
        Command::Enter => if p.panel.selected < p.panel.entries.len() && p.panel.entries[p.panel.selected]@.is_dir {
            Some((p.panel.entries[p.panel.selected]@.path, true))
        } else {
            None
        },
        Command::GoUp => Some((
            match std_parent(p.panel.dir@) {
                Some(q) => q,
                None => p.panel.dir@,
            },
            true,
        )),
        Command::GoBack => match panel_back(p.panel) {
            Some((_, t)) => Some((t@, false)),
            None => None,
        },
        Command::GoForward => match panel_forward(p.panel) {
            Some((_, t)) => Some((t@, false)),
            None => None,
        },
        Command::ToggleHidden | Command::Refresh | Command::SetSort(_, _) => Some((p.panel.dir@, false)),
        _ => None,
    }
}

/// The debug name of a sort field.
pub open spec fn sort_field_name(f: SortField) -> Seq<char> {
    match f {
        SortField::Name => "Name"@,
        SortField::Size => "Size"@,
        SortField::Date => "Date"@,
        SortField::Type => "Type"@,
    }
}

/// The debug name of a sort field, as text.
pub fn sort_field_text(f: SortField) -> (r: String)
    ensures
        r@ == sort_field_name(f),
{
    match f {
        SortField::Name => to_owned_string("Name"),
        SortField::Size => to_owned_string("Size"),
        SortField::Date => to_owned_string("Date"),
        SortField::Type => to_owned_string("Type"),
    }
}

impl App {
    /// Sets the git information of the active tab (none while browsing a
    /// remote server).
    pub fn with_git_info(
        self,
        git_statuses: Option<Vec<(String, GitFileStatus)>>,
        branch_info: Option<BranchInfo>,
    ) -> (a: Self)
        requires
            self.wf(),
        ensures
            a.wf(),
            replaced_active_group(a@, self@, group_with_active(self@.active_group(), a@.active_tab())),
            a@.active_tab() == (TabEntry {
                panel: a@.active_tab().panel,
                git_statuses: if self@.remote_context is Some { None } else { git_statuses },
                branch_info: if self@.remote_context is Some { None } else { branch_info },
                label: a@.active_tab().label,
            }),
            a@.active_tab().panel@ == self@.active_tab().panel@,
            a@.active_tab().label == self@.active_tab().label,
    {
        let tab = self.group().active_tab();
        let panel = tab.panel.duplicate();
        let label = tab.label.clone();
        let remote = self.remote_context.is_some();
        let (g, b) = if remote {
            (None, None)
        } else {
            (git_statuses, branch_info)
        };
        let entry = TabEntry { panel, git_statuses: g, branch_info: b, label };
        let (app, group) = self.split_group();
        let group = group.with_updated_active(entry);
        app.with_group(group)
    }

    /// Shows `panel` in the active tab, keeping the tab's git information
    /// until it is refreshed.
    pub fn show_panel(self, panel: PanelState) -> (a: Self)
        requires
            self.wf(),
        ensures
            a.wf(),
            shows_panel(a@, self@, panel@),
    {
        let tab = self.group().active_tab();
        let g = match &tab.git_statuses {
            Some(v) => Some(crate::tui::app::clone_statuses(v)),
            None => None,
        };
        let b = match &tab.branch_info {
            Some(x) => Some(x.duplicate()),
            None => None,
        };
        let label = dir_label(panel.current_dir());
        let entry = TabEntry { panel, git_statuses: g, branch_info: b, label };
        let (app, group) = self.split_group();
        let group = group.with_updated_active(entry);
        app.with_group(group)
    }

    /// Shows `msg` after `Error: `.
    fn with_error(self, msg: String) -> (a: Self)
        ensures
            a@ == (AppView { status_message: a@.status_message, ..self@ }),
            a@.status_message.unwrap()@ == "Error: "@ + msg@,
    {
        let m = concat("Error: ", msg.as_str());
        self.with_status(m)
    }

    /// What `cmd` needs listed before [`App::handle_command`] can carry it out.
    pub fn listing_request(&self, cmd: &Command) -> (r: Option<ListingRequest>)
        requires
            self.wf(),
        ensures
            r is None <==> request_of(self@, *cmd) is None,
            r matches Some(q) ==> request_of(self@, *cmd) == Some((q.path@, q.canonicalize)),
    {
        let panel = self.panel();
        match cmd {
            Command::Enter => match panel.selected_entry() {
                Some(e) => if e.is_dir() {
                    Some(ListingRequest { path: to_owned_string(e.path()), canonicalize: true })
                } else {
                    None
                },
                None => None,
            },
            Command::GoUp => Some(ListingRequest { path: panel.parent_dir(), canonicalize: true }),
            Command::GoBack => match panel.back_target() {
                Some(t) => Some(ListingRequest { path: t, canonicalize: false }),
                None => None,
            },
            Command::GoForward => match panel.forward_target() {
                Some(t) => Some(ListingRequest { path: t, canonicalize: false }),
                None => None,
            },
            Command::ToggleHidden | Command::Refresh | Command::SetSort(_, _) => Some(
                ListingRequest { path: to_owned_string(panel.current_dir()), canonicalize: false },
            ),
            _ => None,
        }
    }

    /// Carries out `cmd` with the listing that [`App::listing_request`]
    /// asked for. The flag is set when the active panel was replaced, so
    /// that its git information must be read again (see [`App::with_git_info`]).
    pub fn handle_command(self, cmd: Command, listing: Option<Listing>) -> (r: (Self, bool))
        requires
            self.wf(),
            listing is Some <==> request_of(self@, cmd) is Some,
        ensures
            r.0.wf(),
            ({
                let p = self@.active_tab().panel@;
                match cmd {
                    Command::CursorDown => r.1 && shows_panel(r.0@, self@, PanelStateView {
                        panel: PanelView {
                            selected: if p.panel.selected + 1 < p.panel.entries.len() {
                                p.panel.selected + 1
                            } else {
                                p.panel.selected
                            },
                            ..p.panel
                        },
                        ..p
                    }),
                    Command::CursorUp => r.1 && shows_panel(r.0@, self@, PanelStateView {
                        panel: PanelView {
                            selected: if p.panel.selected == 0 {
                                0
                            } else {
                                clamp_selection(p.panel.selected - 1, p.panel.entries.len() as int)
                            },
                            ..p.panel
                        },
                        ..p
                    }),
                    Command::Enter | Command::GoUp => match listing {
                        None => !r.1 && r.0@ == self@,
                        Some(Ok((dir, raw))) => r.1 && entered(p, dir, raw@, r.0@.active_tab().panel@)
                            && shows_panel(r.0@, self@, r.0@.active_tab().panel@),
                        Some(Err(msg)) => !r.1 && r.0@ == (AppView { status_message: r.0@.status_message, ..self@ })
                            && r.0@.status_message.unwrap()@ == "Error: "@ + msg@,
                    },
                    Command::GoBack | Command::GoForward => {
                        let step = if cmd is GoBack { panel_back(p.panel) } else { panel_forward(p.panel) };
                        match listing {
                            None => !r.1 && r.0@ == self@,
                            Some(Ok((_, raw))) => r.1 && stepped_to(p, step.unwrap().0, step.unwrap().1, raw@, r.0@.active_tab().panel@)
                                && shows_panel(r.0@, self@, r.0@.active_tab().panel@),
                            Some(Err(msg)) => !r.1 && r.0@ == (AppView {
                                status_message: r.0@.status_message,
                                ..self@
                            }) && r.0@.status_message.unwrap()@ == "Error: "@ + msg@,
                        }
                    },
                    Command::ToggleHidden | Command::Refresh | Command::SetSort(_, _) => {
                        let (field, direction) = match cmd {
                            Command::SetSort(f, d) => (f, d),
                            _ => (p.sort_field, p.sort_direction),
                        };
                        let hidden = if cmd is ToggleHidden { !p.show_hidden } else { p.show_hidden };
                        match listing {
                            Some(Ok((_, raw))) => r.1 && relisted(p, raw@, field, direction, hidden, r.0@.active_tab().panel@)
                                && (if cmd is SetSort {
                                    shows_panel(
                                        AppView { status_message: self@.status_message, ..r.0@ },
                                        self@,
                                        r.0@.active_tab().panel@,
                                    ) && r.0@.status_message.unwrap()@ == "Sort: "@ + sort_field_name(field)
                                } else {
                                    shows_panel(r.0@, self@, r.0@.active_tab().panel@)
                                }),
                            Some(Err(msg)) => !r.1 && r.0@ == (AppView {
                                status_message: r.0@.status_message,
                                ..self@
                            }) && r.0@.status_message.unwrap()@ == "Error: "@ + msg@,
                            None => false,
                        }
                    },
                    _ => !r.1 && r.0@ == self@,
                }
            }),
    {
        match cmd {
            Command::CursorDown => {
                let panel = self.panel().duplicate().with_cursor_down();
                (self.show_panel(panel), true)
            },
            Command::CursorUp => {
                let panel = self.panel().duplicate().with_cursor_up();
                (self.show_panel(panel), true)
            },
            Command::Enter | Command::GoUp => self.cmd_enter(listing),
            Command::GoBack => self.cmd_step(true, listing),
            Command::GoForward => self.cmd_step(false, listing),
            Command::ToggleHidden => {
                let (f, d) = (self.panel().sort_field(), self.panel().sort_direction());
                self.cmd_relist(0, f, d, listing)
            },
            Command::Refresh => {
                let (f, d) = (self.panel().sort_field(), self.panel().sort_direction());
                self.cmd_relist(1, f, d, listing)
            },
            Command::SetSort(f, d) => self.cmd_relist(2, f, d, listing),
            _ => (self, false),
        }
    }

    fn cmd_enter(self, listing: Option<Listing>) -> (r: (Self, bool))
        requires
            self.wf(),
        ensures
            r.0.wf(),
            match listing {
                None => !r.1 && r.0@ == self@,
                Some(Ok((dir, raw))) => r.1 && entered(self@.active_tab().panel@, dir, raw@, r.0@.active_tab().panel@)
                    && shows_panel(r.0@, self@, r.0@.active_tab().panel@),
                Some(Err(msg)) => !r.1 && r.0@ == (AppView { status_message: r.0@.status_message, ..self@ })
                    && r.0@.status_message.unwrap()@ == "Error: "@ + msg@,
            },
    {
        match listing {
            None => (self, false),
            Some(Ok((dir, raw))) => {
                let panel = self.panel().navigate_to(dir, raw.as_slice());
                (self.show_panel(panel), true)
            },
            Some(Err(msg)) => (self.with_error(msg), false),
        }
    }

    fn cmd_step(self, back: bool, listing: Option<Listing>) -> (r: (Self, bool))
        requires
            self.wf(),
            listing is Some ==> (if back {
                panel_back(self@.active_tab().panel@.panel)
            } else {
                panel_forward(self@.active_tab().panel@.panel)
            }) is Some,
        ensures
            r.0.wf(),
            ({
                let p = self@.active_tab().panel@;
                let step = if back { panel_back(p.panel) } else { panel_forward(p.panel) };
                match listing {
                    None => !r.1 && r.0@ == self@,
                    Some(Ok((_, raw))) => r.1 && stepped_to(p, step.unwrap().0, step.unwrap().1, raw@, r.0@.active_tab().panel@)
                        && shows_panel(r.0@, self@, r.0@.active_tab().panel@),
                    Some(Err(msg)) => !r.1 && r.0@ == (AppView { status_message: r.0@.status_message, ..self@ })
                        && r.0@.status_message.unwrap()@ == "Error: "@ + msg@,
                }
            }),
    {
        match listing {
            Some(Ok((_, raw))) => {
                let stepped = if back {
                    self.panel().go_back(raw.as_slice())
                } else {
                    self.panel().go_forward(raw.as_slice())
                };
                match stepped {
                    Some(panel) => (self.show_panel(panel), true),
                    None => (self, false),
                }
            },
            Some(Err(msg)) => (self.with_error(msg), false),
            None => (self, false),
        }
    }

    fn cmd_relist(self, kind: u8, sort_field: SortField, sort_direction: SortDirection, listing: Option<Listing>) -> (r: (Self, bool))
        requires
            self.wf(),
            kind <= 2,
            listing is Some,
            kind < 2 ==> sort_field == self@.active_tab().panel@.sort_field
                && sort_direction == self@.active_tab().panel@.sort_direction,
        ensures
            r.0.wf(),
            ({
                let p = self@.active_tab().panel@;
                let field = sort_field;
                let hidden = if kind == 0 { !p.show_hidden } else { p.show_hidden };
                match listing {
                    Some(Ok((_, raw))) => r.1 && relisted(p, raw@, field, sort_direction, hidden, r.0@.active_tab().panel@)
                        && (if kind == 2 {
                        shows_panel(
                            AppView { status_message: self@.status_message, ..r.0@ },
                            self@,
                            r.0@.active_tab().panel@,
                        ) && r.0@.status_message.unwrap()@ == "Sort: "@ + sort_field_name(field)
                    } else {
                        shows_panel(r.0@, self@, r.0@.active_tab().panel@)
                    }),
                    Some(Err(msg)) => !r.1 && r.0@ == (AppView { status_message: r.0@.status_message, ..self@ })
                        && r.0@.status_message.unwrap()@ == "Error: "@ + msg@,
                    None => false,
                }
            }),
    {
        match listing {
            Some(Ok((_, raw))) => {
                if kind == 0 {
                    let panel = self.panel().with_toggle_hidden(raw.as_slice());
                    (self.show_panel(panel), true)
                } else if kind == 1 {
                    let panel = self.panel().refresh(raw.as_slice());
                    (self.show_panel(panel), true)
                } else {
                    let panel = self.panel().with_sort(sort_field, sort_direction, raw.as_slice());
                    let name = sort_field_text(panel.sort_field());
                    let msg = concat("Sort: ", name.as_str());
                    let app = self.show_panel(panel);
                    (app.with_status(msg), true)
                }
            },
            Some(Err(msg)) => (self.with_error(msg), false),
            None => (self, false),
        }
    }
}

/// The first index of an entry whose path is `path`, or `0`.
pub open spec fn first_index_of(entries: Seq<FileEntry>, path: Seq<char>) -> int {
    if exists|k: int| 0 <= k < entries.len() && std_path_eq(#[trigger] entries[k]@.path, path) {
        choose|k: int|
            0 <= k < entries.len() && std_path_eq(entries[k]@.path, path) && forall|j: int|
                0 <= j < k ==> !std_path_eq(#[trigger] entries[j]@.path, path)
    } else {
        0
    }
}

/// Finds the first entry whose path is `path`.
fn find_entry(entries: &[FileEntry], path: &str) -> (r: usize)
    ensures
        r == first_index_of(entries@, path@),
        entries@.len() > 0 ==> r < entries@.len(),
{
    let mut i: usize = 0;
    while i < entries.len()
        invariant
            i <= entries@.len(),
            forall|j: int| 0 <= j < i ==> !std_path_eq(#[trigger] entries@[j]@.path, path@),
        decreases entries.len() - i,
    {
        if path_eq(entries[i].path(), path) {
            proof {
                let k = choose|k: int|
                    0 <= k < entries@.len() && std_path_eq(entries@[k]@.path, path@) && forall|j: int|
                        0 <= j < k ==> !std_path_eq(#[trigger] entries@[j]@.path, path@);
                if k < i {
                    assert(!std_path_eq(entries@[k]@.path, path@));
                }
                if k > i {
                    assert(!std_path_eq(entries@[i as int]@.path, path@));
                }
            }
            return i;
        }
        i = i + 1;
    }
    0
}

/// `a` is `s` after entering the listed directory and putting the cursor
/// on the entry at `select` (when given), or `s` with an error message.
pub open spec fn jumped(a: AppView, s: AppView, listing: Listing, select: Option<Seq<char>>, refresh: bool) -> bool {
    match listing {
        Ok((dir, raw)) => {
            let pv = a.active_tab().panel@;
            &&& refresh
            &&& shows_panel(a, s, pv)
            &&& pv.panel.dir == dir
            &&& shown_listing(raw@, s.active_tab().panel@.sort_field, s.active_tab().panel@.sort_direction, s.active_tab().panel@.show_hidden, pv.panel.entries)
            &&& pv.panel.history == crate::nav::history::push_step(s.active_tab().panel@.panel.history, s.active_tab().panel@.panel.dir)
            &&& pv.panel.selected == match select {
                Some(p) => clamp_selection(first_index_of(pv.panel.entries, p), pv.panel.entries.len() as int),
                None => 0,
            }
            &&& pv.show_hidden == s.active_tab().panel@.show_hidden
            &&& pv.sort_field == s.active_tab().panel@.sort_field
            &&& pv.sort_direction == s.active_tab().panel@.sort_direction
        },
        Err(msg) => !refresh && a == (AppView { status_message: a.status_message, ..s })
            && a.status_message.unwrap()@ == "Error: "@ + msg@,
    }
}

impl App {
    /// Enters the listed directory and puts the cursor on `select`.
    fn jump(self, listing: Listing, select: Option<String>) -> (r: (Self, bool))
        requires
            self.wf(),
        ensures
            r.0.wf(),
            jumped(r.0@, self@, listing, match select { Some(p) => Some(p@), None => None }, r.1),
    {
        match listing {
            Ok((dir, raw)) => {
                let panel = self.panel().navigate_to(dir, raw.as_slice());
                let panel = match select {
                    Some(p) => {
                        let idx = find_entry(panel.entries(), p.as_str());
                        panel.with_cursor_to(idx)
                    },
                    None => panel,
                };
                (self.show_panel(panel), true)
            },
            Err(msg) => (self.with_error(msg), false),
        }
    }

    /// The search result under the cursor, if any.
    pub open spec fn search_pick(&self) -> Option<FuzzyMatch> {
        if 0 <= self@.search_selected < self@.search_results.len() {
            Some(self@.search_results[self@.search_selected])
        } else {
            None
        }
    }

    /// The directory [`App::search_confirm`] needs listed: the selected
    /// result, when it is a directory.
    pub fn search_confirm_request(&self) -> (r: Option<ListingRequest>)
        ensures
            r is Some <==> (self.search_pick() is Some && self.search_pick().unwrap()@.entry.is_dir),
            r matches Some(q) ==> q.path@ == self.search_pick().unwrap()@.entry.path && q.canonicalize,
    {
        if self.search_selected < self.search_results.len() {
            let e = self.search_results[self.search_selected].entry();
            if e.is_dir() {
                return Some(ListingRequest { path: to_owned_string(e.path()), canonicalize: true });
            }
        }
        None
    }

    /// Confirms the selected search result: leaves search mode and enters
    /// the directory it names, or puts the cursor on the file it names.
    pub fn search_confirm(self, listing: Option<Listing>) -> (r: (Self, bool))
        requires
            self.wf(),
            listing is Some <==> (self.search_pick() is Some && self.search_pick().unwrap()@.entry.is_dir),
        ensures
            r.0.wf(),
            ({
                let cleared = AppView { mode: AppMode::Normal, search_results: Seq::empty(), search_selected: 0, ..self@ };
                match self.search_pick() {
                    None => !r.1 && r.0@ == cleared,
                    Some(m) => if m@.entry.is_dir {
                        jumped(r.0@, cleared, listing.unwrap(), None, r.1)
                    } else {
                        let p = cleared.active_tab().panel@;
                        r.1 && shows_panel(r.0@, cleared, PanelStateView {
                            panel: PanelView {
                                selected: clamp_selection(first_index_of(p.panel.entries, m@.entry.path), p.panel.entries.len() as int),
                                ..p.panel
                            },
                            ..p
                        })
                    },
                }
            }),
    {
        let picked = if self.search_selected < self.search_results.len() {
            Some(self.search_results[self.search_selected].entry().duplicate())
        } else {
            None
        };
        let app = App { mode: AppMode::Normal, search_results: Vec::new(), search_selected: 0, ..self };
        match picked {
            None => (app, false),
            Some(entry) => {
                if entry.is_dir() {
                    match listing {
                        Some(l) => app.jump(l, None),
                        None => (app, false),
                    }
                } else {
                    let idx = find_entry(app.panel().entries(), entry.path());
                    let panel = app.panel().duplicate().with_cursor_to(idx);
                    (app.show_panel(panel), true)
                }
            },
        }
    }

    /// The bookmark at position `selected` of the sorted labels, with its path.
    pub open spec fn bookmark_pick(&self, selected: int) -> Option<(Seq<char>, Seq<char>)> {
        if 0 <= selected < self@.bookmarks.label_list().len() {
            let label = self@.bookmarks.label_list()[selected];
            Some((label, self@.bookmarks@[label]))
        } else {
            None
        }
    }

    /// The directory [`App::bookmark_jump`] needs listed: the path of the
    /// bookmark at `selected`.
    pub fn bookmark_jump_request(&self, selected: usize) -> (r: Option<ListingRequest>)
        requires
            self.wf(),
        ensures
            r is Some <==> self.bookmark_pick(selected as int) is Some,
            r matches Some(q) ==> q.path@ == self.bookmark_pick(selected as int).unwrap().1 && q.canonicalize,
    {
        let entries = self.bookmarks.iter();
        proof {
            self@.bookmarks.lemma_label_list();
        }
        if selected < entries.len() {
            Some(ListingRequest { path: entries[selected].1.clone(), canonicalize: true })
        } else {
            None
        }
    }

    /// Jumps to the bookmark at `selected` of the sorted labels, back in
    /// normal mode.
    pub fn bookmark_jump(self, selected: usize, listing: Option<Listing>) -> (r: (Self, bool))
        requires
            self.wf(),
            listing is Some <==> self.bookmark_pick(selected as int) is Some,
        ensures
            r.0.wf(),
            ({
                let normal = AppView { mode: AppMode::Normal, ..self@ };
                match self.bookmark_pick(selected as int) {
                    None => !r.1 && r.0@ == normal,
                    Some((label, _)) => match listing.unwrap() {
                        Ok(l) => jumped(
                            AppView { status_message: normal.status_message, ..r.0@ },
                            normal,
                            Ok(l),
                            None,
                            r.1,
                        ) && r.0@.status_message.unwrap()@ == "Jumped to '"@ + label + "'"@,
                        Err(msg) => jumped(r.0@, normal, Err(msg), None, r.1),
                    },
                }
            }),
    {
        let entries = self.bookmarks.iter();
        proof {
            self@.bookmarks.lemma_label_list();
        }
        let label = if selected < entries.len() {
            Some(entries[selected].0.clone())
        } else {
            None
        };
        let app = self.with_mode(AppMode::Normal);
        match label {
            None => (app, false),
            Some(label) => match listing {
                Some(Ok(l)) => {
                    let (app, refresh) = app.jump(Ok(l), None);
                    let m1 = concat("Jumped to '", label.as_str());
                    let msg = concat(m1.as_str(), "'");
                    (app.with_status(msg), refresh)
                },
                Some(Err(msg)) => app.jump(Err(msg), None),
                None => (app, false),
            },
        }
    }

    /// The recent file under the cursor, if any.
    pub open spec fn recent_pick(&self) -> Option<FileEntry> {
        if 0 <= self@.recent_selected < self@.recent_results.len() {
            Some(self@.recent_results[self@.recent_selected])
        } else {
            None
        }
    }

    /// The directory [`App::recent_confirm`] needs listed: the parent of
    /// the selected recent file.
    pub fn recent_confirm_request(&self) -> (r: Option<ListingRequest>)
        ensures
            r is Some <==> (self.recent_pick() is Some && std_parent(self.recent_pick().unwrap()@.path) is Some),
            r matches Some(q) ==> Some(q.path@) == std_parent(self.recent_pick().unwrap()@.path) && q.canonicalize,
    {
        if self.recent_selected < self.recent_results.len() {
            match path_parent(self.recent_results[self.recent_selected].path()) {
                Some(p) => Some(ListingRequest { path: p, canonicalize: true }),
                None => None,
            }
        } else {
            None
        }
    }

    /// Confirms the selected recent file: leaves the list and, given the
    /// listing of its directory that [`App::recent_confirm_request`] asked
    /// for, enters that directory with the cursor on the file.
    pub fn recent_confirm(self, listing: Option<Listing>) -> (r: (Self, bool))
        requires
            self.wf(),
        ensures
            r.0.wf(),
            ({
                let cleared = AppView { mode: AppMode::Normal, recent_results: Seq::empty(), recent_selected: 0, ..self@ };
                match (listing, self.recent_pick()) {
                    (Some(l), Some(f)) => jumped(r.0@, cleared, l, Some(f@.path), r.1),
                    _ => !r.1 && r.0@ == cleared,
                }
            }),
    {
        let picked = if self.recent_selected < self.recent_results.len() {
            Some(to_owned_string(self.recent_results[self.recent_selected].path()))
        } else {
            None
        };
        let app = App { mode: AppMode::Normal, recent_results: Vec::new(), recent_selected: 0, ..self };
        match listing {
            Some(l) => match picked {
                Some(path) => app.jump(l, Some(path)),
                None => (app, false),
            },
            None => (app, false),
        }
    }

    /// The duplicate file under the cursor, if any.
    pub open spec fn duplicate_pick(&self) -> Option<FileInfoView> {
        flat_file(groups_view(self@.duplicate_cache.groups@), self@.duplicate_selected)
    }

    /// The directory [`App::duplicate_confirm`] needs listed: the parent of
    /// the duplicate file under the cursor.
    pub fn duplicate_confirm_request(&self) -> (r: Option<ListingRequest>)
        ensures
            r is Some <==> (self.duplicate_pick() is Some && std_parent(self.duplicate_pick().unwrap().path) is Some),
            r matches Some(q) ==> Some(q.path@) == std_parent(self.duplicate_pick().unwrap().path) && q.canonicalize,
    {
        match find_flat_file(&self.duplicate_cache.groups, self.duplicate_selected) {
            Some(f) => match path_parent(f.path.as_str()) {
                Some(p) => Some(ListingRequest { path: p, canonicalize: true }),
                None => None,
            },
            None => None,
        }
    }

    /// Confirms the duplicate file under the cursor: leaves the list and,
    /// given the listing of its directory that
    /// [`App::duplicate_confirm_request`] asked for, enters that directory
    /// with the cursor on the file.
    pub fn duplicate_confirm(self, listing: Option<Listing>) -> (r: (Self, bool))
        requires
            self.wf(),
        ensures
            r.0.wf(),
            ({
                let cleared = AppView { mode: AppMode::Normal, duplicate_selected: 0, ..self@ };
                match (listing, self.duplicate_pick()) {
                    (Some(l), Some(f)) => jumped(r.0@, cleared, l, Some(f.path), r.1),
                    _ => !r.1 && r.0@ == cleared,
                }
            }),
    {
        let picked = match find_flat_file(&self.duplicate_cache.groups, self.duplicate_selected) {
            Some(f) => Some(f.path.clone()),
            None => None,
        };
        let app = App { mode: AppMode::Normal, duplicate_selected: 0, ..self };
        match listing {
            Some(l) => match picked {
                Some(path) => app.jump(l, Some(path)),
                None => (app, false),
            },
            None => (app, false),
        }
    }
}

} // verus!

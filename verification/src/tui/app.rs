//! Front-end state: panels with their view settings, and groups of tabs.
//!
//! Directory listings are read by the caller and handed in; every
//! transition returns a new value.

use vstd::prelude::*;
use crate::fs::entry::FileEntry;
use crate::git::branch::BranchInfo;
use crate::git::status::GitFileStatus;
use crate::nav::filter::{filter_hidden, sort_entries, sort_order, SortDirection, SortField};
use crate::nav::panel::{clamp_selection, enter_dir, panel_back, panel_forward, Panel, PanelView, SinglePanel};
use crate::sort::{is_stable_sort_by, seq_filter};
use crate::text::{path_parent, std_parent, to_owned_string};

verus! {

/// The entries a panel shows for a raw directory listing: sorted by the
/// panel's field and direction with directories first, hidden entries left
/// out unless shown.
pub open spec fn shown_listing(
    raw: Seq<FileEntry>,
    field: SortField,
    direction: SortDirection,
    show_hidden: bool,
    shown: Seq<FileEntry>,
) -> bool {
    exists|sorted: Seq<FileEntry>|
        #[trigger] is_stable_sort_by(sorted, raw, sort_order(field, direction, true)) && shown == if show_hidden {
            sorted
        } else {
            seq_filter(sorted, |e: FileEntry| !e@.is_hidden)
        }
}

/// The entries shown for `raw` under the given settings.
fn listing(raw: &[FileEntry], field: SortField, direction: SortDirection, show_hidden: bool) -> (r: Vec<FileEntry>)
    ensures
        shown_listing(raw@, field, direction, show_hidden, r@),
{
    let sorted = sort_entries(raw, field, direction, true);
    let r = filter_hidden(sorted.as_slice(), show_hidden);
    proof {
        assert(is_stable_sort_by(sorted@, raw@, sort_order(field, direction, true)));
    }
    r
}

/// Abstract state of a [`PanelState`].
pub struct PanelStateView {
    pub panel: PanelView,
    pub show_hidden: bool,
    pub sort_field: SortField,
    pub sort_direction: SortDirection,
}

/// Panel state with its view settings: hidden-file visibility and sort order.
#[derive(Debug, Clone)]
pub struct PanelState {
    inner: SinglePanel,
    show_hidden: bool,
    sort_field: SortField,
    sort_direction: SortDirection,
}

impl View for PanelState {
    type V = PanelStateView;

    closed spec fn view(&self) -> PanelStateView {
        PanelStateView {
            panel: self.inner@,
            show_hidden: self.show_hidden,
            sort_field: self.sort_field,
            sort_direction: self.sort_direction,
        }
    }
}

/// The sort field that follows `f`: name, size, date, type, and round again.
pub open spec fn next_sort_field(f: SortField) -> SortField {
    match f {
        SortField::Name => SortField::Size,
        SortField::Size => SortField::Date,
        SortField::Date => SortField::Type,
        SortField::Type => SortField::Name,
    }
}

/// Cycling the sort field moves to another field each time and comes back
/// after all four.
pub proof fn law_sort_cycle(f: SortField)
    ensures
        next_sort_field(f) != f,
        next_sort_field(next_sort_field(next_sort_field(next_sort_field(f)))) == f,
{
}

impl PanelState {
    /// A panel showing `dir` (already resolved to its canonical form), whose
    /// raw listing is `raw`: sorted by name ascending with directories first,
    /// hidden entries hidden, cursor on the first entry.
    pub fn from_dir(dir: String, raw: &[FileEntry]) -> (p: Self)
        ensures
            p@.panel.dir == dir,
            shown_listing(raw@, SortField::Name, SortDirection::Ascending, false, p@.panel.entries),
            p@.panel.selected == 0,
            p@.panel.history.back.len() == 0,
            p@.panel.history.forward.len() == 0,
            !p@.show_hidden,
            p@.sort_field == SortField::Name,
            p@.sort_direction == SortDirection::Ascending,
    {
        let visible = listing(raw, SortField::Name, SortDirection::Ascending, false);
        PanelState {
            inner: SinglePanel::new(dir, visible),
            show_hidden: false,
            sort_field: SortField::Name,
            sort_direction: SortDirection::Ascending,
        }
    }

    /// The directory shown.
    pub fn current_dir(&self) -> (r: &str)
        ensures
            r@ == self@.panel.dir@,
    {
        self.inner.current_dir()
    }

    /// The entries shown.
    pub fn entries(&self) -> (r: &[FileEntry])
        ensures
            r@ == self@.panel.entries,
    {
        self.inner.entries()
    }

    /// The cursor position.
    pub fn selected_index(&self) -> (r: usize)
        ensures
            r == self@.panel.selected,
    {
        self.inner.selected_index()
    }

    /// The entry under the cursor, if any.
    pub fn selected_entry(&self) -> (r: Option<&FileEntry>)
        ensures
            r is None <==> !(self@.panel.selected < self@.panel.entries.len()),
            r matches Some(e) ==> *e == self@.panel.entries[self@.panel.selected],
    {
        self.inner.selected_entry()
    }

    /// Whether hidden entries are shown.
    pub fn show_hidden(&self) -> (r: bool)
        ensures
            r == self@.show_hidden,
    {
        self.show_hidden
    }

    /// The sort field.
    pub fn sort_field(&self) -> (r: SortField)
        ensures
            r == self@.sort_field,
    {
        self.sort_field
    }

    /// The sort direction.
    pub fn sort_direction(&self) -> (r: SortDirection)
        ensures
            r == self@.sort_direction,
    {
        self.sort_direction
    }

    /// A copy of this panel state.
    pub fn duplicate(&self) -> (r: Self)
        ensures
            r@ == self@,
    {
        PanelState {
            inner: self.inner.duplicate(),
            show_hidden: self.show_hidden,
            sort_field: self.sort_field,
            sort_direction: self.sort_direction,
        }
    }

    /// The underlying panel.
    pub fn panel(&self) -> (r: &SinglePanel)
        ensures
            r@ == self@.panel,
    {
        &self.inner
    }

    /// Move cursor down by one.
    pub fn with_cursor_down(self) -> (p: Self)
        ensures
            p@ == (PanelStateView {
                panel: PanelView {
                    selected: if self@.panel.selected + 1 < self@.panel.entries.len() {
                        self@.panel.selected + 1
                    } else {
                        self@.panel.selected
                    },
                    ..self@.panel
                },
                ..self@
            }),
    {
        PanelState { inner: self.inner.move_down(), ..self }
    }

    /// Move cursor up by one.
    pub fn with_cursor_up(self) -> (p: Self)
        ensures
            p@ == (PanelStateView {
                panel: PanelView {
                    selected: if self@.panel.selected == 0 {
                        0
                    } else {
                        clamp_selection(self@.panel.selected - 1, self@.panel.entries.len() as int)
                    },
                    ..self@.panel
                },
                ..self@
            }),
    {
        PanelState { inner: self.inner.move_up(), ..self }
    }

    /// Jump to the first entry.
    pub fn with_cursor_top(self) -> (p: Self)
        ensures
            p@ == (PanelStateView { panel: PanelView { selected: 0, ..self@.panel }, ..self@ }),
    {
        PanelState { inner: self.inner.go_to_first(), ..self }
    }

    /// Jump to the last entry.
    pub fn with_cursor_bottom(self) -> (p: Self)
        ensures
            p@ == (PanelStateView {
                panel: PanelView {
                    selected: if self@.panel.entries.len() == 0 { 0 } else { self@.panel.entries.len() - 1 },
                    ..self@.panel
                },
                ..self@
            }),
    {
        PanelState { inner: self.inner.go_to_last(), ..self }
    }

    /// Jump cursor to a specific index (clamped to bounds).
    pub fn with_cursor_to(self, index: usize) -> (p: Self)
        ensures
            p@ == (PanelStateView {
                panel: PanelView {
                    selected: clamp_selection(index as int, self@.panel.entries.len() as int),
                    ..self@.panel
                },
                ..self@
            }),
    {
        PanelState { inner: self.inner.with_selection(index), ..self }
    }

    /// Enters the directory `dir` (canonical form) whose raw listing is `raw`,
    /// pushing the current directory onto the history.
    pub fn navigate_to(&self, dir: String, raw: &[FileEntry]) -> (p: Self)
        ensures
            p@.panel.dir == dir,
            shown_listing(raw@, self@.sort_field, self@.sort_direction, self@.show_hidden, p@.panel.entries),
            p@.panel == enter_dir(self@.panel, dir, p@.panel.entries),
            p@.show_hidden == self@.show_hidden,
            p@.sort_field == self@.sort_field,
            p@.sort_direction == self@.sort_direction,
    {
        let visible = listing(raw, self.sort_field, self.sort_direction, self.show_hidden);
        let inner = self.inner.duplicate().with_directory(dir, visible);
        PanelState {
            inner,
            show_hidden: self.show_hidden,
            sort_field: self.sort_field,
            sort_direction: self.sort_direction,
        }
    }

    /// The directory "up" leads to: the parent of the current directory, or
    /// the directory itself when it has none.
    pub fn parent_dir(&self) -> (r: String)
        ensures
            r@ == match std_parent(self@.panel.dir@) {
                Some(p) => p,
                None => self@.panel.dir@,
            },
    {
        match path_parent(self.inner.current_dir()) {
            Some(p) => p,
            None => to_owned_string(self.inner.current_dir()),
        }
    }

    /// Goes up to the parent directory (see [`PanelState::parent_dir`]),
    /// whose canonical form is `dir` and raw listing `raw`.
    pub fn go_up(&self, dir: String, raw: &[FileEntry]) -> (p: Self)
        ensures
            p@.panel.dir == dir,
            shown_listing(raw@, self@.sort_field, self@.sort_direction, self@.show_hidden, p@.panel.entries),
            p@.panel == enter_dir(self@.panel, dir, p@.panel.entries),
            p@.show_hidden == self@.show_hidden,
            p@.sort_field == self@.sort_field,
            p@.sort_direction == self@.sort_direction,
    {
        self.navigate_to(dir, raw)
    }

    /// The directory a step back leads to, if there is history.
    pub fn back_target(&self) -> (r: Option<String>)
        ensures
            r is None <==> panel_back(self@.panel) is None,
            r matches Some(t) ==> t == panel_back(self@.panel).unwrap().1,
    {
        match self.inner.duplicate().go_back() {
            Some((_, path)) => Some(path),
            None => None,
        }
    }

    /// The directory a step forward leads to, if there is forward history.
    pub fn forward_target(&self) -> (r: Option<String>)
        ensures
            r is None <==> panel_forward(self@.panel) is None,
            r matches Some(t) ==> t == panel_forward(self@.panel).unwrap().1,
    {
        match self.inner.duplicate().go_forward() {
            Some((_, path)) => Some(path),
            None => None,
        }
    }

    /// Goes back in history to the directory that [`PanelState::back_target`]
    /// names, showing `raw`, its listing. `None` when there is no history.
    pub fn go_back(&self, raw: &[FileEntry]) -> (r: Option<Self>)
        ensures
            r is None <==> panel_back(self@.panel) is None,
            r matches Some(p) ==> {
                let b = panel_back(self@.panel).unwrap().0;
                &&& shown_listing(raw@, self@.sort_field, self@.sort_direction, self@.show_hidden, p@.panel.entries)
                &&& p@.panel == (PanelView {
                    dir: panel_back(self@.panel).unwrap().1,
                    entries: p@.panel.entries,
                    selected: clamp_selection(b.selected, p@.panel.entries.len() as int),
                    ..b
                })
                &&& p@.show_hidden == self@.show_hidden
                &&& p@.sort_field == self@.sort_field
                &&& p@.sort_direction == self@.sort_direction
            },
    {
        match self.inner.duplicate().go_back() {
            Some((new_inner, path)) => {
                let visible = listing(raw, self.sort_field, self.sort_direction, self.show_hidden);
                Some(PanelState {
                    inner: new_inner.relocated(path, visible),
                    show_hidden: self.show_hidden,
                    sort_field: self.sort_field,
                    sort_direction: self.sort_direction,
                })
            },
            None => None,
        }
    }

    /// Goes forward in history to the directory that
    /// [`PanelState::forward_target`] names, showing `raw`, its listing.
    /// `None` when there is no forward history.
    pub fn go_forward(&self, raw: &[FileEntry]) -> (r: Option<Self>)
        ensures
            r is None <==> panel_forward(self@.panel) is None,
            r matches Some(p) ==> {
                let f = panel_forward(self@.panel).unwrap().0;
                &&& shown_listing(raw@, self@.sort_field, self@.sort_direction, self@.show_hidden, p@.panel.entries)
                &&& p@.panel == (PanelView {
                    dir: panel_forward(self@.panel).unwrap().1,
                    entries: p@.panel.entries,
                    selected: clamp_selection(f.selected, p@.panel.entries.len() as int),
                    ..f
                })
                &&& p@.show_hidden == self@.show_hidden
                &&& p@.sort_field == self@.sort_field
                &&& p@.sort_direction == self@.sort_direction
            },
    {
        match self.inner.duplicate().go_forward() {
            Some((new_inner, path)) => {
                let visible = listing(raw, self.sort_field, self.sort_direction, self.show_hidden);
                Some(PanelState {
                    inner: new_inner.relocated(path, visible),
                    show_hidden: self.show_hidden,
                    sort_field: self.sort_field,
                    sort_direction: self.sort_direction,
                })
            },
            None => None,
        }
    }

    /// Shows the fresh listing `raw` of the current directory.
    pub fn refresh(&self, raw: &[FileEntry]) -> (p: Self)
        ensures
            shown_listing(raw@, self@.sort_field, self@.sort_direction, self@.show_hidden, p@.panel.entries),
            p@.panel == (PanelView {
                entries: p@.panel.entries,
                selected: clamp_selection(self@.panel.selected, p@.panel.entries.len() as int),
                ..self@.panel
            }),
            p@.show_hidden == self@.show_hidden,
            p@.sort_field == self@.sort_field,
            p@.sort_direction == self@.sort_direction,
    {
        self.with_sort(self.sort_field, self.sort_direction, raw)
    }

    /// Toggles hidden-file visibility, showing the fresh listing `raw`.
    pub fn with_toggle_hidden(&self, raw: &[FileEntry]) -> (p: Self)
        ensures
            shown_listing(raw@, self@.sort_field, self@.sort_direction, !self@.show_hidden, p@.panel.entries),
            p@.panel == (PanelView {
                entries: p@.panel.entries,
                selected: clamp_selection(self@.panel.selected, p@.panel.entries.len() as int),
                ..self@.panel
            }),
            p@.show_hidden == !self@.show_hidden,
            p@.sort_field == self@.sort_field,
            p@.sort_direction == self@.sort_direction,
    {
        let new_show = !self.show_hidden;
        let visible = listing(raw, self.sort_field, self.sort_direction, new_show);
        PanelState {
            inner: self.inner.duplicate().with_entries(visible),
            show_hidden: new_show,
            sort_field: self.sort_field,
            sort_direction: self.sort_direction,
        }
    }

    /// Moves to the next sort field, showing the fresh listing `raw`.
    pub fn with_next_sort(&self, raw: &[FileEntry]) -> (p: Self)
        ensures
            shown_listing(raw@, next_sort_field(self@.sort_field), self@.sort_direction, self@.show_hidden, p@.panel.entries),
            p@.panel == (PanelView {
                entries: p@.panel.entries,
                selected: clamp_selection(self@.panel.selected, p@.panel.entries.len() as int),
                ..self@.panel
            }),
            p@.show_hidden == self@.show_hidden,
            p@.sort_field == next_sort_field(self@.sort_field),
            p@.sort_direction == self@.sort_direction,
    {
        let next_field = match self.sort_field {
            SortField::Name => SortField::Size,
            SortField::Size => SortField::Date,
            SortField::Date => SortField::Type,
            SortField::Type => SortField::Name,
        };
        self.with_sort(next_field, self.sort_direction, raw)
    }

    /// Applies a sort field and direction, showing the fresh listing `raw`.
    pub fn with_sort(&self, field: SortField, direction: SortDirection, raw: &[FileEntry]) -> (p: Self)
        ensures
            shown_listing(raw@, field, direction, self@.show_hidden, p@.panel.entries),
            p@.panel == (PanelView {
                entries: p@.panel.entries,
                selected: clamp_selection(self@.panel.selected, p@.panel.entries.len() as int),
                ..self@.panel
            }),
            p@.show_hidden == self@.show_hidden,
            p@.sort_field == field,
            p@.sort_direction == direction,
    {
        let visible = listing(raw, field, direction, self.show_hidden);
        PanelState {
            inner: self.inner.duplicate().with_entries(visible),
            show_hidden: self.show_hidden,
            sort_field: field,
            sort_direction: direction,
        }
    }
}

/// A single tab's state: panel, git information and display label.
#[derive(Debug, Clone)]
pub struct TabEntry {
    pub panel: PanelState,
    pub git_statuses: Option<Vec<(String, GitFileStatus)>>,
    pub branch_info: Option<BranchInfo>,
    pub label: String,
}

/// The view of optional git statuses.
pub open spec fn statuses_view(s: Option<Vec<(String, GitFileStatus)>>) -> Option<Seq<(String, GitFileStatus)>> {
    match s {
        Some(v) => Some(v@),
        None => None,
    }
}

/// `a` shows what `b` shows: the same panel, git information and label.
pub open spec fn same_tab(a: TabEntry, b: TabEntry) -> bool {
    &&& a.panel@ == b.panel@
    &&& statuses_view(a.git_statuses) == statuses_view(b.git_statuses)
    &&& a.branch_info == b.branch_info
    &&& a.label == b.label
}

/// A copy of a status list.
pub fn clone_statuses(v: &Vec<(String, GitFileStatus)>) -> (r: Vec<(String, GitFileStatus)>)
    ensures
        r@ == v@,
{
    let mut out: Vec<(String, GitFileStatus)> = Vec::new();
    for i in 0..v.len()
        invariant
            out@ == v@.take(i as int),
    {
        let item = (v[i].0.clone(), v[i].1);
        out.push(item);
        proof {
            assert(out@ =~= v@.take(i + 1));
        }
    }
    proof {
        assert(v@.take(v@.len() as int) =~= v@);
    }
    out
}

impl TabEntry {
    /// A copy of this tab.
    pub fn duplicate(&self) -> (r: Self)
        ensures
            same_tab(r, *self),
    {
        TabEntry {
            panel: self.panel.duplicate(),
            git_statuses: match &self.git_statuses {
                Some(v) => Some(clone_statuses(v)),
                None => None,
            },
            branch_info: match &self.branch_info {
                Some(b) => Some(b.duplicate()),
                None => None,
            },
            label: self.label.clone(),
        }
    }
}

/// Most tabs a group holds.
pub const MAX_TABS: usize = 9;

/// Abstract state of a [`TabGroup`].
pub struct TabGroupView {
    pub tabs: Seq<TabEntry>,
    pub active: int,
}

/// A group of tabs within a single panel slot.
#[derive(Debug, Clone)]
pub struct TabGroup {
    tabs: Vec<TabEntry>,
    active_tab: usize,
}

impl View for TabGroup {
    type V = TabGroupView;

    closed spec fn view(&self) -> TabGroupView {
        TabGroupView { tabs: self.tabs@, active: self.active_tab as int }
    }
}

/// A group has at least one tab and the active one is among them.
pub open spec fn tabs_ok(v: TabGroupView) -> bool {
    &&& v.tabs.len() >= 1
    &&& 0 <= v.active < v.tabs.len()
}

/// The group after adding `entry` right after the active tab and making it
/// active; a group of [`MAX_TABS`] tabs stays as it is.
pub open spec fn add_tab(v: TabGroupView, entry: TabEntry) -> TabGroupView {
    if v.tabs.len() >= MAX_TABS {
        v
    } else {
        TabGroupView { tabs: v.tabs.insert(v.active + 1, entry), active: v.active + 1 }
    }
}

/// The group after closing tab `index`: the last tab and out-of-range
/// indices are kept; the active tab stays on the same tab where it can,
/// moves left when a tab before it closes, and falls back to the last tab.
pub open spec fn close_tab(v: TabGroupView, index: int) -> TabGroupView {
    if v.tabs.len() <= 1 || index < 0 || index >= v.tabs.len() {
        v
    } else {
        let tabs = v.tabs.remove(index);
        let active = if v.active >= tabs.len() {
            tabs.len() - 1
        } else if v.active > index {
            v.active - 1
        } else {
            v.active
        };
        TabGroupView { tabs, active }
    }
}

/// The active tab after moving to the next tab, wrapping around.
pub open spec fn next_active(v: TabGroupView) -> int {
    if v.active + 1 < v.tabs.len() {
        v.active + 1
    } else {
        0
    }
}

/// The active tab after moving to the previous tab, wrapping around.
pub open spec fn prev_active(v: TabGroupView) -> int {
    if v.active == 0 {
        v.tabs.len() - 1
    } else {
        v.active - 1
    }
}

impl TabGroup {
    /// The group is well formed.
    pub open spec fn wf(&self) -> bool {
        tabs_ok(self@)
    }

    /// A group holding the one tab `entry`.
    pub fn new(entry: TabEntry) -> (g: Self)
        ensures
            g@.tabs == seq![entry],
            g@.active == 0,
            g.wf(),
    {
        let mut tabs: Vec<TabEntry> = Vec::new();
        tabs.push(entry);
        proof {
            assert(tabs@ =~= seq![entry]);
        }
        TabGroup { tabs, active_tab: 0 }
    }

    /// The active tab.
    pub fn active_tab(&self) -> (t: &TabEntry)
        requires
            self.wf(),
        ensures
            *t == self@.tabs[self@.active],
    {
        &self.tabs[self.active_tab]
    }

    /// Number of tabs.
    pub fn tab_count(&self) -> (n: usize)
        ensures
            n == self@.tabs.len(),
    {
        self.tabs.len()
    }

    /// Index of the active tab.
    pub fn active_tab_index(&self) -> (i: usize)
        ensures
            i == self@.active,
    {
        self.active_tab
    }

    /// All tabs, in order.
    pub fn tabs(&self) -> (r: &[TabEntry])
        ensures
            r@ == self@.tabs,
    {
        self.tabs.as_slice()
    }

    /// Adds a new tab after the active one and makes it active (at most 9 tabs).
    pub fn with_new_tab(self, entry: TabEntry) -> (g: Self)
        requires
            self.wf(),
        ensures
            g@ == add_tab(self@, entry),
            g.wf(),
    {
        if self.tabs.len() >= MAX_TABS {
            return self;
        }
        let mut tabs = self.tabs;
        let insert_idx = self.active_tab + 1;
        tabs.insert(insert_idx, entry);
        TabGroup { tabs, active_tab: insert_idx }
    }

    /// Closes tab `index`; the last tab and out-of-range indices are kept.
    pub fn with_closed_tab(self, index: usize) -> (g: Self)
        requires
            self.wf(),
        ensures
            g@ == close_tab(self@, index as int),
            g.wf(),
    {
        if self.tabs.len() <= 1 || index >= self.tabs.len() {
            return self;
        }
        let mut tabs = self.tabs;
        tabs.remove(index);
        let new_active = if self.active_tab >= tabs.len() {
            tabs.len() - 1
        } else if self.active_tab > index {
            self.active_tab - 1
        } else {
            self.active_tab
        };
        TabGroup { tabs, active_tab: new_active }
    }

    /// Makes tab `index` active; out-of-range indices change nothing.
    pub fn with_active_tab(self, index: usize) -> (g: Self)
        requires
            self.wf(),
        ensures
            g@ == if index < self@.tabs.len() { TabGroupView { active: index as int, ..self@ } } else { self@ },
            g.wf(),
    {
        if index >= self.tabs.len() {
            return self;
        }
        TabGroup { active_tab: index, ..self }
    }

    /// Switches to the next tab (wrapping).
    pub fn with_next_tab(self) -> (g: Self)
        requires
            self.wf(),
        ensures
            g@ == (TabGroupView { active: next_active(self@), ..self@ }),
            g.wf(),
    {
        assert(self.active_tab < self.tabs.len());
        let next = if self.active_tab < self.tabs.len() - 1 {
            self.active_tab + 1
        } else {
            0
        };
        TabGroup { active_tab: next, ..self }
    }

    /// Switches to the previous tab (wrapping).
    pub fn with_prev_tab(self) -> (g: Self)
        requires
            self.wf(),
        ensures
            g@ == (TabGroupView { active: prev_active(self@), ..self@ }),
            g.wf(),
    {
        let prev = if self.active_tab == 0 {
            self.tabs.len() - 1
        } else {
            self.active_tab - 1
        };
        TabGroup { active_tab: prev, ..self }
    }

    /// Replaces the active tab's entry.
    pub fn with_updated_active(self, entry: TabEntry) -> (g: Self)
        requires
            self.wf(),
        ensures
            g@ == (TabGroupView { tabs: self@.tabs.update(self@.active, entry), ..self@ }),
            g.wf(),
    {
        let mut tabs = self.tabs;
        tabs.set(self.active_tab, entry);
        TabGroup { tabs, ..self }
    }
}

/// Moving to the next tab and back returns to the same tab, and so does
/// moving back and then on.
pub proof fn law_next_prev_tab(v: TabGroupView)
    requires
        tabs_ok(v),
    ensures
        prev_active(TabGroupView { active: next_active(v), ..v }) == v.active,
        next_active(TabGroupView { active: prev_active(v), ..v }) == v.active,
{
}

/// Closing the tab that was just added gives back the tabs there were; the
/// cursor returns to the tab it was on, or moves one right when the added
/// tab was not the last.
pub proof fn law_add_then_close_tab(v: TabGroupView, entry: TabEntry)
    requires
        tabs_ok(v),
        v.tabs.len() < MAX_TABS,
    ensures
        close_tab(add_tab(v, entry), v.active + 1).tabs == v.tabs,
        close_tab(add_tab(v, entry), v.active + 1).active == if v.active + 1 == v.tabs.len() {
            v.active
        } else {
            v.active + 1
        },
{
    assert(v.tabs.insert(v.active + 1, entry).remove(v.active + 1) =~= v.tabs);
}

/// Every tab operation keeps a group well formed.
pub proof fn law_tab_ops_keep_wf(v: TabGroupView, entry: TabEntry, index: int)
    requires
        tabs_ok(v),
    ensures
        tabs_ok(add_tab(v, entry)),
        tabs_ok(close_tab(v, index)),
        tabs_ok(TabGroupView { active: next_active(v), ..v }),
        tabs_ok(TabGroupView { active: prev_active(v), ..v }),
{
}

} // verus!

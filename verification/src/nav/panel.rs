//! Panel abstraction for file browsing.
//!
//! The [`Panel`] trait defines the interface that any file panel must
//! implement. [`SinglePanel`] is the default implementation for a single
//! file-list view with cursor selection and navigation history.

use vstd::prelude::*;
use crate::fs::entry::{clone_entries, FileEntry};
use crate::nav::history::{back_step, forward_step, push_step, History, HistoryView};

verus! {

/// Trait defining the interface for a file panel.
///
/// All mutation methods consume `self` and return a new instance.
pub trait Panel: Sized {
    /// Returns the directory currently being displayed.
    fn current_dir(&self) -> &str;
    /// Returns the list of entries in the current directory.
    fn entries(&self) -> &[FileEntry];
    /// Returns the index of the currently selected entry.
    fn selected_index(&self) -> usize;
    /// Returns a reference to the selected entry, if any.
    fn selected_entry(&self) -> Option<&FileEntry>;
    /// Returns a new panel with the selection moved to `index` (clamped to bounds).
    fn with_selection(self, index: usize) -> Self;
    /// Returns a new panel with `entries` replacing the current list.
    fn with_entries(self, entries: Vec<FileEntry>) -> Self;
    /// Navigates into a new directory, pushing the current path onto history.
    fn with_directory(self, path: String, entries: Vec<FileEntry>) -> Self;
}

/// Abstract state of a [`SinglePanel`].
pub struct PanelView {
    pub dir: String,
    pub entries: Seq<FileEntry>,
    pub selected: int,
    pub history: HistoryView,
}

/// The selection is a valid index, or `0` when there are no entries.
pub open spec fn selection_ok(entries_len: int, selected: int) -> bool {
    if entries_len == 0 {
        selected == 0
    } else {
        0 <= selected < entries_len
    }
}

/// `index` clamped to the valid selections of a list of `len` entries.
pub open spec fn clamp_selection(index: int, len: int) -> int {
    if len == 0 {
        0
    } else if index < len - 1 {
        index
    } else {
        len - 1
    }
}

/// The panel after entering `path` with the given entries.
pub open spec fn enter_dir(v: PanelView, path: String, entries: Seq<FileEntry>) -> PanelView {
    PanelView { dir: path, entries, selected: 0, history: push_step(v.history, v.dir) }
}

/// The panel and target path after a step back, if there is history.
/// Entries stay as they were; the caller replaces them with the target's.
pub open spec fn panel_back(v: PanelView) -> Option<(PanelView, String)> {
    match back_step(v.history) {
        Some((h, p)) => Some((PanelView { history: h, selected: 0, ..v }, p)),
        None => None,
    }
}

/// The panel and target path after a step forward, if there is history.
pub open spec fn panel_forward(v: PanelView) -> Option<(PanelView, String)> {
    match forward_step(v.history) {
        Some((h, p)) => Some((PanelView { history: h, selected: 0, ..v }, p)),
        None => None,
    }
}

/// A single-panel file browser with navigation history.
///
/// Immutable: all state transitions return a new `SinglePanel`.
/// Selection is always clamped to valid bounds.
#[derive(Debug, Clone)]
pub struct SinglePanel {
    current_dir: String,
    entries: Vec<FileEntry>,
    selected_index: usize,
    history: History,
}

impl View for SinglePanel {
    type V = PanelView;

    closed spec fn view(&self) -> PanelView {
        PanelView {
            dir: self.current_dir,
            entries: self.entries@,
            selected: self.selected_index as int,
            history: self.history@,
        }
    }
}

impl SinglePanel {
    /// Creates a new panel rooted at `current_dir` with the given entries.
    ///
    /// The cursor starts at index `0` and history is empty.
    pub fn new(current_dir: String, entries: Vec<FileEntry>) -> (p: Self)
        ensures
            p@.dir == current_dir,
            p@.entries == entries@,
            p@.selected == 0,
            selection_ok(p@.entries.len() as int, p@.selected),
            p@.history.back.len() == 0,
            p@.history.forward.len() == 0,
    {
        SinglePanel { current_dir, entries, selected_index: 0, history: History::new() }
    }

    /// A copy of this panel.
    pub fn duplicate(&self) -> (p: Self)
        ensures
            p@ == self@,
    {
        SinglePanel {
            current_dir: self.current_dir.clone(),
            entries: clone_entries(self.entries.as_slice()),
            selected_index: self.selected_index,
            history: self.history.duplicate(),
        }
    }

    /// Returns a reference to the navigation history.
    pub fn history(&self) -> (h: &History)
        ensures
            h@ == self@.history,
    {
        &self.history
    }

    /// Moves the selection up by one. No-op if already at the top.
    pub fn move_up(self) -> (p: Self)
        ensures
            p@ == (PanelView {
                selected: if self@.selected == 0 {
                    0
                } else {
                    clamp_selection(self@.selected - 1, self@.entries.len() as int)
                },
                ..self@
            }),
    {
        if self.selected_index == 0 {
            return self;
        }
        let new_index = self.selected_index - 1;
        self.with_selection(new_index)
    }

    /// Moves the selection down by one. No-op if already at the bottom.
    pub fn move_down(self) -> (p: Self)
        ensures
            p@ == (PanelView {
                selected: if self@.selected + 1 < self@.entries.len() { self@.selected + 1 } else { self@.selected },
                ..self@
            }),
    {
        if self.entries.len() == 0 {
            return self;
        }
        let max_index = self.entries.len() - 1;
        if self.selected_index >= max_index {
            return self;
        }
        let new_index = self.selected_index + 1;
        self.with_selection(new_index)
    }

    /// Jumps the selection to the first entry (`gg`).
    pub fn go_to_first(self) -> (p: Self)
        ensures
            p@ == (PanelView { selected: 0, ..self@ }),
    {
        self.with_selection(0)
    }

    /// Jumps the selection to the last entry (`G`).
    pub fn go_to_last(self) -> (p: Self)
        ensures
            p@ == (PanelView {
                selected: if self@.entries.len() == 0 { 0 } else { self@.entries.len() - 1 },
                ..self@
            }),
    {
        if self.entries.len() == 0 {
            return self.with_selection(0);
        }
        let last = self.entries.len() - 1;
        self.with_selection(last)
    }

    /// Navigates backward in history. Returns `None` if there is no history.
    ///
    /// The caller is responsible for reading the returned path and updating entries.
    pub fn go_back(self) -> (r: Option<(Self, String)>)
        ensures
            r is None <==> panel_back(self@) is None,
            r matches Some((p, path)) ==> panel_back(self@) == Some((p@, path)),
    {
        match self.history.go_back() {
            Some((new_history, path)) => {
                let panel = SinglePanel {
                    current_dir: self.current_dir,
                    entries: self.entries,
                    selected_index: 0,
                    history: new_history,
                };
                Some((panel, path))
            },
            None => None,
        }
    }

    /// Navigates forward in history. Returns `None` if there is no forward entry.
    pub fn go_forward(self) -> (r: Option<(Self, String)>)
        ensures
            r is None <==> panel_forward(self@) is None,
            r matches Some((p, path)) ==> panel_forward(self@) == Some((p@, path)),
    {
        match self.history.go_forward() {
            Some((new_history, path)) => {
                let panel = SinglePanel {
                    current_dir: self.current_dir,
                    entries: self.entries,
                    selected_index: 0,
                    history: new_history,
                };
                Some((panel, path))
            },
            None => None,
        }
    }

    /// The panel showing `path` with `entries`, its history left as it is
    /// (after a step back or forward, the directory the step handed out).
    pub fn relocated(self, path: String, entries: Vec<FileEntry>) -> (p: Self)
        ensures
            p@ == (PanelView {
                dir: path,
                entries: entries@,
                selected: clamp_selection(self@.selected, entries@.len() as int),
                ..self@
            }),
            selection_ok(p@.entries.len() as int, p@.selected),
    {
        let selected_index = if entries.len() == 0 {
            0
        } else if self.selected_index < entries.len() - 1 {
            self.selected_index
        } else {
            entries.len() - 1
        };
        SinglePanel { current_dir: path, entries, selected_index, history: self.history }
    }

    /// Returns `true` if there is navigation history to go back to.
    pub fn can_go_back(&self) -> (b: bool)
        ensures
            b == (self@.history.back.len() > 0),
    {
        self.history.can_go_back()
    }

    /// Returns `true` if there is navigation history to go forward to.
    pub fn can_go_forward(&self) -> (b: bool)
        ensures
            b == (self@.history.forward.len() > 0),
    {
        self.history.can_go_forward()
    }
}

impl Panel for SinglePanel {
    fn current_dir(&self) -> (r: &str)
        ensures
            r@ == self@.dir@,
    {
        self.current_dir.as_str()
    }

    fn entries(&self) -> (r: &[FileEntry])
        ensures
            r@ == self@.entries,
    {
        self.entries.as_slice()
    }

    fn selected_index(&self) -> (r: usize)
        ensures
            r == self@.selected,
    {
        self.selected_index
    }

    fn selected_entry(&self) -> (r: Option<&FileEntry>)
        ensures
            r is None <==> !(self@.selected < self@.entries.len()),
            r matches Some(e) ==> *e == self@.entries[self@.selected],
    {
        if self.selected_index < self.entries.len() {
            Some(&self.entries[self.selected_index])
        } else {
            None
        }
    }

    fn with_selection(self, index: usize) -> (p: Self)
        ensures
            p@ == (PanelView { selected: clamp_selection(index as int, self@.entries.len() as int), ..self@ }),
            selection_ok(p@.entries.len() as int, p@.selected),
    {
        let clamped = if self.entries.len() == 0 {
            0
        } else if index < self.entries.len() - 1 {
            index
        } else {
            self.entries.len() - 1
        };
        SinglePanel {
            current_dir: self.current_dir,
            entries: self.entries,
            selected_index: clamped,
            history: self.history,
        }
    }

    fn with_entries(self, entries: Vec<FileEntry>) -> (p: Self)
        ensures
            p@ == (PanelView {
                entries: entries@,
                selected: clamp_selection(self@.selected, entries@.len() as int),
                ..self@
            }),
            selection_ok(p@.entries.len() as int, p@.selected),
    {
        let selected_index = if entries.len() == 0 {
            0
        } else if self.selected_index < entries.len() - 1 {
            self.selected_index
        } else {
            entries.len() - 1
        };
        SinglePanel {
            current_dir: self.current_dir,
            entries,
            selected_index,
            history: self.history,
        }
    }

    fn with_directory(self, path: String, entries: Vec<FileEntry>) -> (p: Self)
        ensures
            p@ == enter_dir(self@, path, entries@),
            selection_ok(p@.entries.len() as int, p@.selected),
    {
        let new_history = self.history.push(self.current_dir);
        SinglePanel { current_dir: path, entries, selected_index: 0, history: new_history }
    }
}

/// Going back right after entering a directory hands out the directory that
/// was left, and leaves nothing to go back to beyond what was there before.
pub proof fn law_enter_then_back(v: PanelView, path: String, entries: Seq<FileEntry>)
    ensures
        panel_back(enter_dir(v, path, entries)) matches Some((b, p))
            && p == v.dir
            && b.history.back == v.history.back
            && b.selected == 0,
{
    assert(v.history.back.push(v.dir).drop_last() =~= v.history.back);
}

/// Going back and then forward again hands out the same path twice and
/// returns to the same history.
pub proof fn law_panel_back_forward(v: PanelView)
    requires
        panel_back(v) is Some,
    ensures
        panel_forward(panel_back(v).unwrap().0) matches Some((f, p))
            && p == panel_back(v).unwrap().1
            && f.history == v.history,
{
    let h = v.history;
    let p = h.back.last();
    assert(h.back.drop_last().push(p) =~= h.back);
    assert(h.forward.push(p).drop_last() =~= h.forward);
}

} // verus!

//! One turn of the event loop: what a key action, or a message from the
//! work running in the background, does to the application state, and what
//! the loop must then do outside the library (list a directory, talk to the
//! remote server, start the editor, ...). The loop performs that work and
//! hands the outcome back to the method the [`Effect`] names.

use vstd::prelude::*;
use crate::event::Command;
use crate::fs::entry::FileEntry;
use crate::git::branch::BranchInfo;
use crate::git::status::GitFileStatus;
use crate::nav::filter::{SortDirection, SortField};
use crate::remote::sftp::SftpConfig;
use crate::text::{chars_of, concat, string_from_chars, to_owned_string};
use crate::tui::background::{ScanMessage, ScanStatus};
use crate::tui::input::{action_input, resolve_action, AppMode, ConfirmAction, InputAction, KeyEvent};
use crate::action::{hit_order, palette_hits, refs_view, Action, ActionDescriptor, DescriptorView};
use crate::sort::is_stable_sort_by;
use crate::tui::state::{
    bookmark_added, bookmark_removed, capped_count, cursor_down, cursor_up, duplicate_delete_asked, researched,
};
use crate::tui::remote_connect::{ConnectField, ConnectFormState};
use crate::tui::app::{shown_listing, PanelState, PanelStateView};
use crate::tui::state::{
    entered, number_text, relisted, remote_listed, shows_panel, sort_field_text, sort_field_name, App, AppView,
    Listing, RemoteContext,
};
use crate::fs::duplicates::{groups_view, marks_other_than, pruned_groups};
use crate::text::{
    nfc_composed, nfc_string, path_eq, path_file_name, path_parent, std_file_name, std_parent, std_path_eq, str_eq,
};
use crate::nav::panel::{clamp_selection, PanelView};

verus! {

/// What the loop knows besides the application state.
#[derive(Debug, Clone, Copy)]
pub struct StepContext {
    /// A remote session is open.
    pub has_session: bool,
    /// An embedded terminal is running.
    pub has_terminal: bool,
    /// Half the height of the screen, in lines (the pager's half page).
    pub half_page: usize,
}

/// Work the loop must do outside the library after a step.
#[derive(Debug)]
pub enum Effect {
    /// Nothing.
    Done,
    /// Read the git information of the active panel's directory again and
    /// hand it to [`App::with_git_info`].
    RefreshGit,
    /// Read what [`App::listing_request`] asks for this command and hand it
    /// to [`App::handle_command`].
    RunCommand(Command),
    /// Ask the remote session for the listing of this directory.
    RemoteList(String),
    /// Search the active directory for recently changed files and hand the
    /// result to [`App::load_recent_files`].
    LoadRecent,
    /// Close the remote session, list the start directory and hand it to
    /// [`App::show_listed`].
    Disconnect,
    /// Read `$HOME`, list it and hand the result to [`App::go_home`].
    GoHome,
    /// Open this file in the editor, then call [`App::after_edit`].
    Edit(String),
    /// Delete these paths, then call [`App::after_delete`].
    Delete(Vec<String>),
    /// Delete this duplicate file, then call [`App::after_delete_duplicate`].
    DeleteDuplicate(String),
    /// Read what [`App::search_confirm_request`] asks and call [`App::search_confirm`].
    SearchConfirm,
    /// Read what [`App::bookmark_jump_request`] asks for this position and
    /// call [`App::bookmark_jump`].
    BookmarkJump(usize),
    /// Store the bookmarks.
    SaveBookmarks,
    /// Read what [`App::recent_confirm_request`] asks and call [`App::recent_confirm`].
    RecentConfirm,
    /// Read what [`App::duplicate_confirm_request`] asks and call [`App::duplicate_confirm`].
    DuplicateConfirm,
    /// List the active directory again and hand it to [`App::after_sort`]
    /// with this field and direction.
    Sort(SortField, SortDirection),
    /// Read the file [`App::pager_target`] names and call [`App::enter_pager`].
    Pager,
    /// Read the git information of the right panel's directory and hand it
    /// to [`App::toggle_dual`].
    ToggleDual,
    /// Open a remote session with this configuration.
    Connect(SftpConfig),
    /// Start the embedded terminal in this directory, then call
    /// [`App::after_terminal_spawn`].
    SpawnTerminal(String),
    /// Send this key to the embedded terminal.
    TerminalKey(KeyEvent),
}

/// `a` is `s` with the status message `msg`.
pub open spec fn with_message(s: AppView, a: AppView, msg: Seq<char>) -> bool {
    &&& a == (AppView { status_message: a.status_message, ..s })
    &&& a.status_message is Some
    &&& a.status_message.unwrap()@ == msg
}

/// Digits of a decimal number, most significant first.
pub open spec fn all_digits(s: Seq<char>) -> bool {
    forall|i: int| 0 <= i < s.len() ==> '0' <= #[trigger] s[i] <= '9'
}

/// The value of the decimal digits `s`.
pub open spec fn digits_value(s: Seq<char>) -> nat
    decreases s.len(),
{
    if s.len() == 0 {
        0
    } else {
        digits_value(s.drop_last()) * 10 + ((s.last() as nat) - ('0' as nat)) as nat
    }
}

/// What `str::parse::<u16>` yields: an optional `+`, then one or more
/// decimal digits whose value fits in 16 bits.
pub open spec fn parsed_u16(s: Seq<char>) -> Option<u16> {
    let d = if s.len() > 0 && s[0] == '+' { s.skip(1) } else { s };
    if d.len() > 0 && all_digits(d) && digits_value(d) <= 65535 {
        Some(digits_value(d) as u16)
    } else {
        None
    }
}

/// The port typed in the connection form, `22` where it is no number.
pub open spec fn port_of(s: Seq<char>) -> u16 {
    match parsed_u16(s) {
        Some(p) => p,
        None => 22,
    }
}

/// Parses a port number typed by the user; anything that is not a decimal
/// number up to 65535 gives the SSH port 22.
pub fn parse_port(s: &str) -> (r: u16)
    ensures
        r == port_of(s@),
{
    let cs = chars_of(s);
    let start: usize = if cs.len() > 0 && cs[0] == '+' { 1 } else { 0 };
    let ghost d = if s@.len() > 0 && s@[0] == '+' { s@.skip(1) } else { s@ };
    if start >= cs.len() {
        return 22;
    }
    let mut acc: u64 = 0;
    let mut i: usize = start;
    while i < cs.len()
        invariant
            start <= i <= cs@.len(),
            cs@ == s@,
            d == cs@.skip(start as int),
            d == (if s@.len() > 0 && s@[0] == '+' { s@.skip(1) } else { s@ }),
            all_digits(cs@.subrange(start as int, i as int)),
            acc == if digits_value(cs@.subrange(start as int, i as int)) < 65536 {
                digits_value(cs@.subrange(start as int, i as int))
            } else {
                65536
            },
        decreases cs.len() - i,
    {
        let c = cs[i];
        if !('0' <= c && c <= '9') {
            proof {
                assert(d[i - start] == c);
                assert(!all_digits(d));
                assert(parsed_u16(s@) is None);
            }
            return 22;
        }
        let dv = (c as u32 - '0' as u32) as u64;
        let ghost pre = cs@.subrange(start as int, i as int);
        let ghost next = cs@.subrange(start as int, i + 1);
        proof {
            assert(next.drop_last() =~= pre);
            assert(next.last() == c);
            assert(digits_value(next) == digits_value(pre) * 10 + dv);
            assert forall|k: int| 0 <= k < next.len() implies '0' <= #[trigger] next[k] <= '9' by {
                if k < pre.len() {
                    assert(next[k] == pre[k]);
                }
            }
        }
        acc = if acc * 10 + dv >= 65536 { 65536 } else { acc * 10 + dv };
        i = i + 1;
    }
    proof {
        assert(cs@.subrange(start as int, cs@.len() as int) =~= d);
    }
    if acc > 65535 {
        22
    } else {
        acc as u16
    }
}

/// `new` is the form `old` with the focused field's text replaced by `t`.
pub open spec fn form_edited(old: ConnectFormState, new: ConnectFormState, t: Seq<char>) -> bool {
    match old.focused {
        ConnectField::Host => new == ConnectFormState { host: new.host, ..old } && new.host@ == t,
        ConnectField::Port => new == ConnectFormState { port: new.port, ..old } && new.port@ == t,
        ConnectField::Username => new == ConnectFormState { username: new.username, ..old } && new.username@ == t,
        ConnectField::Password => new == ConnectFormState { password: new.password, ..old } && new.password@ == t,
    }
}

/// The form with `c` typed into the focused field.
fn form_push(form: ConnectFormState, c: char) -> (r: ConnectFormState)
    ensures
        form_edited(form, r, form.focused_text().push(c)),
{
    let mut form = form;
    let field = form.focused_value_mut();
    let mut cs = chars_of(field.as_str());
    cs.push(c);
    *field = string_from_chars(cs.as_slice());
    form
}

/// The form with the last character of the focused field removed.
fn form_pop(form: ConnectFormState) -> (r: ConnectFormState)
    ensures
        form_edited(
            form,
            r,
            if form.focused_text().len() > 0 { form.focused_text().drop_last() } else { form.focused_text() },
        ),
{
    let mut form = form;
    let field = form.focused_value_mut();
    let mut cs = chars_of(field.as_str());
    if cs.len() > 0 {
        cs.pop();
    }
    *field = string_from_chars(cs.as_slice());
    form
}

/// `text` with `c` appended.
fn pushed(text: &str, c: char) -> (r: String)
    ensures
        r@ == text@.push(c),
{
    let mut cs = chars_of(text);
    cs.push(c);
    string_from_chars(cs.as_slice())
}

/// `text` without its last character (unchanged when empty).
fn popped(text: &str) -> (r: String)
    ensures
        r@ == if text@.len() > 0 { text@.drop_last() } else { text@ },
{
    let mut cs = chars_of(text);
    if cs.len() > 0 {
        cs.pop();
    }
    string_from_chars(cs.as_slice())
}

/// `x - y`, or zero.
pub open spec fn sat_sub(x: int, y: int) -> int {
    if x >= y {
        x - y
    } else {
        0
    }
}

/// The cursor of a list whose last position is `max` after moving down.
pub open spec fn down_to(sel: int, max: int) -> int {
    if sel >= max {
        max
    } else {
        sel + 1
    }
}

/// The position of a sort field in the sort popup.
pub open spec fn sort_index(f: SortField) -> usize {
    match f {
        SortField::Name => 0,
        SortField::Size => 1,
        SortField::Date => 2,
        SortField::Type => 3,
    }
}

/// The sort field at a position of the sort popup.
pub open spec fn sort_field_at(i: usize) -> SortField {
    if i == 0 {
        SortField::Name
    } else if i == 1 {
        SortField::Size
    } else if i == 2 {
        SortField::Date
    } else {
        SortField::Type
    }
}

fn sort_position(f: SortField) -> (r: usize)
    ensures
        r == sort_index(f),
{
    match f {
        SortField::Name => 0,
        SortField::Size => 1,
        SortField::Date => 2,
        SortField::Type => 3,
    }
}

fn field_at(i: usize) -> (r: SortField)
    ensures
        r == sort_field_at(i),
{
    if i == 0 {
        SortField::Name
    } else if i == 1 {
        SortField::Size
    } else if i == 2 {
        SortField::Date
    } else {
        SortField::Type
    }
}

/// A copy of the form.
fn form_copy(f: &ConnectFormState) -> (r: ConnectFormState)
    ensures
        r == *f,
{
    ConnectFormState {
        host: f.host.clone(),
        port: f.port.clone(),
        username: f.username.clone(),
        password: f.password.clone(),
        focused: f.focused,
        error_message: match &f.error_message {
            Some(m) => Some(m.clone()),
            None => None,
        },
        is_connecting: f.is_connecting,
    }
}

/// The debug name of a sort direction.
pub open spec fn direction_name(d: SortDirection) -> Seq<char> {
    match d {
        SortDirection::Ascending => "Ascending"@,
        SortDirection::Descending => "Descending"@,
    }
}

fn direction_text(d: SortDirection) -> (r: String)
    ensures
        r@ == direction_name(d),
{
    match d {
        SortDirection::Ascending => to_owned_string("Ascending"),
        SortDirection::Descending => to_owned_string("Descending"),
    }
}

/// `pv` is a panel freshly opened on `dir` with the raw listing `raw`:
/// sorted by name, hidden files hidden, cursor on the first entry, no
/// history.
pub open spec fn fresh_panel(dir: String, raw: Seq<FileEntry>, pv: PanelStateView) -> bool {
    &&& pv.panel.dir == dir
    &&& shown_listing(raw, SortField::Name, SortDirection::Ascending, false, pv.panel.entries)
    &&& pv.panel.selected == 0
    &&& pv.panel.history.back.len() == 0
    &&& pv.panel.history.forward.len() == 0
    &&& !pv.show_hidden
    &&& pv.sort_field == SortField::Name
    &&& pv.sort_direction == SortDirection::Ascending
}

/// `a` is `s` with the active directory listed again (`raw`), cursor kept
/// where it fits.
pub open spec fn relisted_here(a: AppView, s: AppView, raw: Seq<FileEntry>) -> bool {
    let p = s.active_tab().panel@;
    &&& relisted(p, raw, p.sort_field, p.sort_direction, p.show_hidden, a.active_tab().panel@)
    &&& shows_panel(a, s, a.active_tab().panel@)
}

impl App {
    /// Takes in a message of the background duplicate scanner. The flag
    /// asks the loop to store the (new) duplicate cache.
    pub fn on_scan_message(self, msg: ScanMessage) -> (r: (Self, bool))
        ensures
            match msg {
                ScanMessage::ScanStarted => !r.1 && r.0@ == (AppView { scan_status: ScanStatus::Scanning, ..self@ }),
                ScanMessage::ScanComplete(c) => r.1 && r.0@ == (AppView {
                    duplicate_cache: c,
                    scan_status: ScanStatus::Idle,
                    ..self@
                }),
                ScanMessage::ValidationComplete(c) => r.1 && r.0@ == (AppView { duplicate_cache: c, ..self@ }),
                ScanMessage::ScanError(_) => !r.1 && r.0@ == (AppView { scan_status: ScanStatus::Idle, ..self@ }),
            },
    {
        match msg {
            ScanMessage::ScanStarted => (self.with_scan_status(ScanStatus::Scanning), false),
            ScanMessage::ScanComplete(c) => (self.with_duplicate_cache(c).with_scan_status(ScanStatus::Idle), true),
            ScanMessage::ValidationComplete(c) => (self.with_duplicate_cache(c), true),
            ScanMessage::ScanError(_) => (self.with_scan_status(ScanStatus::Idle), false),
        }
    }

    /// The remote session opened, introduced as `label`, and listed its
    /// start directory `home_dir`: the form stops waiting, and the active
    /// panel shows that directory.
    pub fn on_remote_connected(self, label: String, home_dir: String, entries: Vec<FileEntry>) -> (a: Self)
        requires
            self.wf(),
        ensures
            a.wf(),
            ({
                let s1 = AppView {
                    connect_form: ConnectFormState { is_connecting: false, ..self@.connect_form },
                    mode: AppMode::Normal,
                    remote_context: Some(RemoteContext { label, remote_cwd: home_dir }),
                    ..self@
                };
                &&& with_message(AppView { status_message: s1.status_message, ..a@ }, a@, "Connected to "@ + label@)
                &&& remote_listed(AppView { status_message: s1.status_message, ..a@ }, s1, home_dir, entries@)
            }),
    {
        let mut form = form_copy(self.connect_form());
        form.is_connecting = false;
        let msg = concat("Connected to ", label.as_str());
        let ctx = RemoteContext { label, remote_cwd: home_dir.clone() };
        let app = self.with_connect_form(form).with_mode(AppMode::Normal).with_remote_context(Some(ctx));
        app.with_remote_directory(home_dir, entries).with_status(msg)
    }

    /// The remote session could not be opened: the form shows `err`.
    pub fn on_connection_failed(self, err: String) -> (a: Self)
        ensures
            a@ == (AppView {
                connect_form: ConnectFormState {
                    is_connecting: false,
                    error_message: Some(err),
                    ..self@.connect_form
                },
                ..self@
            }),
    {
        let mut form = form_copy(self.connect_form());
        form.is_connecting = false;
        form.error_message = Some(err);
        self.with_connect_form(form)
    }

    /// The server listed the remote directory `path`: it becomes the remote
    /// working directory and is shown. Without a remote session nothing
    /// changes.
    pub fn on_directory_loaded(self, path: String, entries: Vec<FileEntry>) -> (a: Self)
        requires
            self.wf(),
        ensures
            a.wf(),
            self@.remote_context is None ==> a@ == self@,
            self@.remote_context matches Some(ctx) ==> remote_listed(
                a@,
                AppView {
                    remote_context: Some(RemoteContext { label: ctx.label, remote_cwd: path }),
                    ..self@
                },
                path,
                entries@,
            ),
    {
        let label = match self.remote_context() {
            Some(ctx) => ctx.label.clone(),
            None => {
                return self;
            },
        };
        let ctx = RemoteContext { label, remote_cwd: path.clone() };
        self.with_remote_context(Some(ctx)).with_remote_directory(path, entries)
    }

    /// The server could not list a directory.
    pub fn on_directory_failed(self, err: String) -> (a: Self)
        ensures
            with_message(self@, a@, "Remote error: "@ + err@),
    {
        let msg = concat("Remote error: ", err.as_str());
        self.with_status(msg)
    }

    /// The embedded terminal's shell exited.
    pub fn on_terminal_exited(self) -> (a: Self)
        ensures
            with_message(
                AppView { terminal_visible: false, mode: AppMode::Normal, ..self@ },
                a@,
                "Terminal exited"@,
            ),
    {
        self.with_terminal_visible(false).with_mode(AppMode::Normal).with_status(
            to_owned_string("Terminal exited"),
        )
    }

    /// The embedded terminal was started (shown and focused), or could not
    /// be (`Err` with the reason).
    pub fn after_terminal_spawn(self, spawned: Result<(), String>) -> (a: Self)
        ensures
            spawned is Ok ==> a@ == (AppView { terminal_visible: true, mode: AppMode::Terminal, ..self@ }),
            spawned matches Err(e) ==> with_message(self@, a@, "Failed to spawn terminal: "@ + e@),
    {
        match spawned {
            Ok(()) => self.with_terminal_visible(true).with_mode(AppMode::Terminal),
            Err(e) => {
                let msg = concat("Failed to spawn terminal: ", e.as_str());
                self.with_status(msg)
            },
        }
    }

    /// Enters the home directory: its listing (canonical path and raw
    /// entries), the error reading it raised, or `None` when `$HOME` is not
    /// set. The flag asks for the git information to be read again.
    pub fn go_home(self, listing: Option<Listing>) -> (r: (Self, bool))
        requires
            self.wf(),
        ensures
            r.0.wf(),
            match listing {
                None => !r.1 && with_message(self@, r.0@, "Could not determine home directory"@),
                Some(Ok((dir, raw))) => r.1 && entered(self@.active_tab().panel@, dir, raw@, r.0@.active_tab().panel@)
                    && shows_panel(r.0@, self@, r.0@.active_tab().panel@),
                Some(Err(msg)) => !r.1 && with_message(self@, r.0@, "Error: "@ + msg@),
            },
    {
        match listing {
            None => (self.with_status(to_owned_string("Could not determine home directory")), false),
            Some(Ok((dir, raw))) => {
                let panel = self.panel().navigate_to(dir, raw.as_slice());
                (self.show_panel(panel), true)
            },
            Some(Err(msg)) => {
                let m = concat("Error: ", msg.as_str());
                (self.with_status(m), false)
            },
        }
    }

    /// Shows a freshly opened panel on the listed directory (after leaving
    /// a remote server); a listing error changes nothing. The flag asks for
    /// the git information to be read again.
    pub fn show_listed(self, listing: Listing) -> (r: (Self, bool))
        requires
            self.wf(),
        ensures
            r.0.wf(),
            match listing {
                Ok((dir, raw)) => r.1 && fresh_panel(dir, raw@, r.0@.active_tab().panel@)
                    && shows_panel(r.0@, self@, r.0@.active_tab().panel@),
                Err(_) => !r.1 && r.0@ == self@,
            },
    {
        match listing {
            Ok((dir, raw)) => {
                let panel = PanelState::from_dir(dir, raw.as_slice());
                (self.show_panel(panel), true)
            },
            Err(_) => (self, false),
        }
    }

    /// Shows the active directory listed again (after a change on disk); a
    /// listing error changes nothing. The flag asks for the git
    /// information to be read again.
    pub fn refreshed(self, raw: Result<Vec<FileEntry>, String>) -> (r: (Self, bool))
        requires
            self.wf(),
        ensures
            r.0.wf(),
            match raw {
                Ok(v) => r.1 && relisted_here(r.0@, self@, v@),
                Err(_) => !r.1 && r.0@ == self@,
            },
    {
        match raw {
            Ok(v) => {
                let panel = self.panel().refresh(v.as_slice());
                (self.show_panel(panel), true)
            },
            Err(_) => (self, false),
        }
    }

    /// The editor exited (`Err` with the reason it failed); after a clean
    /// exit the active directory, listed again (`relist`), is shown.
    pub fn after_edit(self, outcome: Result<(), String>, relist: Option<Result<Vec<FileEntry>, String>>) -> (r: (
        Self,
        bool,
    ))
        requires
            self.wf(),
        ensures
            r.0.wf(),
            match outcome {
                Err(e) => !r.1 && with_message(self@, r.0@, "Editor failed: "@ + e@),
                Ok(()) => match relist {
                    Some(Ok(v)) => r.1 && relisted_here(r.0@, self@, v@),
                    _ => !r.1 && r.0@ == self@,
                },
            },
    {
        match outcome {
            Err(e) => {
                let msg = concat("Editor failed: ", e.as_str());
                (self.with_status(msg), false)
            },
            Ok(()) => match relist {
                Some(raw) => self.refreshed(raw),
                None => (self, false),
            },
        }
    }

    /// The `count` paths awaiting confirmation were deleted (or the first
    /// failure); back in normal mode the active directory, listed again,
    /// is shown.
    pub fn after_delete(self, count: usize, deleted: Result<(), String>, relist: Option<Result<Vec<FileEntry>, String>>) -> (r: (
        Self,
        bool,
    ))
        requires
            self.wf(),
        ensures
            r.0.wf(),
            ({
                let normal = AppView { mode: AppMode::Normal, ..self@ };
                match deleted {
                    Err(e) => !r.1 && with_message(normal, r.0@, "Delete failed: "@ + e@),
                    Ok(()) => match relist {
                        Some(Ok(v)) => r.1 && relisted_here(AppView { status_message: normal.status_message, ..r.0@ }, normal, v@)
                            && r.0@.status_message is Some
                            && r.0@.status_message.unwrap()@ == "Deleted "@ + crate::text::decimal(count as nat) + " item(s)"@,
                        Some(Err(e)) => !r.1 && with_message(normal, r.0@, "Error refreshing: "@ + e@),
                        None => !r.1 && r.0@ == normal,
                    },
                }
            }),
    {
        let app = self.with_mode(AppMode::Normal);
        match deleted {
            Err(e) => {
                let msg = concat("Delete failed: ", e.as_str());
                (app.with_status(msg), false)
            },
            Ok(()) => match relist {
                Some(Ok(v)) => {
                    let n = number_text(count);
                    let m1 = concat("Deleted ", n.as_str());
                    let msg = concat(m1.as_str(), " item(s)");
                    let (app, refresh) = app.refreshed(Ok(v));
                    (app.with_status(msg), refresh)
                },
                Some(Err(e)) => {
                    let msg = concat("Error refreshing: ", e.as_str());
                    (app.with_status(msg), false)
                },
                None => (app, false),
            },
        }
    }

    /// The duplicate file `path` was deleted (or the reason it was not):
    /// it leaves the cache, and the duplicate list is shown again. The flag
    /// asks the loop to store the cache.
    pub fn after_delete_duplicate(self, path: &str, deleted: Result<(), String>) -> (r: (Self, bool))
        ensures
            ({
                let listed = AppView { mode: AppMode::DuplicateFiles, ..self@ };
                match deleted {
                    Err(e) => !r.1 && with_message(listed, r.0@, "Delete failed: "@ + e@),
                    Ok(()) => {
                        let gv = groups_view(self@.duplicate_cache.groups@);
                        let name = match std_file_name(path@) {
                            Some(n) => n,
                            None => Seq::empty(),
                        };
                        &&& r.1
                        &&& with_message(
                            AppView { duplicate_cache: r.0@.duplicate_cache, ..listed },
                            r.0@,
                            "Deleted: "@ + nfc_composed(name),
                        )
                        &&& groups_view(r.0@.duplicate_cache.groups@) == pruned_groups(gv, marks_other_than(gv, path@))
                        &&& r.0@.duplicate_cache.scanned_at == self@.duplicate_cache.scanned_at
                        &&& r.0@.duplicate_cache.scan_root == self@.duplicate_cache.scan_root
                    },
                }
            }),
    {
        match deleted {
            Err(e) => {
                let msg = concat("Delete failed: ", e.as_str());
                (self.with_mode(AppMode::DuplicateFiles).with_status(msg), false)
            },
            Ok(()) => {
                let name = match path_file_name(path) {
                    Some(n) => n,
                    None => String::new(),
                };
                let shown = nfc_string(name.as_str());
                let msg = concat("Deleted: ", shown.as_str());
                let app = self.without_duplicate_file(path).with_mode(AppMode::DuplicateFiles).with_status(msg);
                (app, true)
            },
        }
    }

    /// Sorts the active directory, listed again (`relist`), by `field` in
    /// `direction`, back in normal mode. The flag asks for the git
    /// information to be read again.
    pub fn after_sort(self, field: SortField, direction: SortDirection, relist: Result<Vec<FileEntry>, String>) -> (r: (
        Self,
        bool,
    ))
        requires
            self.wf(),
        ensures
            r.0.wf(),
            ({
                let normal = AppView { mode: AppMode::Normal, ..self@ };
                let p = self@.active_tab().panel@;
                match relist {
                    Ok(v) => {
                        let shown = AppView { status_message: normal.status_message, ..r.0@ };
                        &&& r.1
                        &&& relisted(p, v@, field, direction, p.show_hidden, r.0@.active_tab().panel@)
                        &&& shows_panel(shown, normal, r.0@.active_tab().panel@)
                        &&& r.0@.status_message is Some
                        &&& r.0@.status_message.unwrap()@ == "Sort: "@ + sort_field_name(field) + " "@
                            + direction_name(direction)
                    },
                    Err(e) => !r.1 && with_message(normal, r.0@, "Error: "@ + e@),
                }
            }),
    {
        let app = self.with_mode(AppMode::Normal);
        match relist {
            Ok(v) => {
                let panel = app.panel().with_sort(field, direction, v.as_slice());
                let f = sort_field_text(field);
                let d = direction_text(direction);
                let m1 = concat("Sort: ", f.as_str());
                let m2 = concat(m1.as_str(), " ");
                let msg = concat(m2.as_str(), d.as_str());
                (app.show_panel(panel).with_status(msg), true)
            },
            Err(e) => {
                let msg = concat("Error: ", e.as_str());
                (app.with_status(msg), false)
            },
        }
    }

    /// Toggles dual panel mode with the git information read for the right
    /// panel's directory, and says which mode is on.
    pub fn toggle_dual(
        self,
        git_statuses: Option<Vec<(String, GitFileStatus)>>,
        branch_info: Option<BranchInfo>,
    ) -> (a: Self)
        requires
            self.wf(),
        ensures
            a.wf(),
            self@.dual_mode ==> with_message(AppView { dual_mode: false, ..self@ }, a@, "Single panel mode"@),
            !self@.dual_mode ==> {
                let old_tab = self@.right@.tabs[self@.right@.active];
                let new_tab = a@.right@.tabs[a@.right@.active];
                &&& with_message(AppView { dual_mode: true, right: a@.right, ..self@ }, a@, "Dual panel mode"@)
                &&& a@.right@ == crate::tui::state::group_with_active(self@.right, new_tab)
                &&& new_tab.panel@ == old_tab.panel@
                &&& new_tab.git_statuses == git_statuses
                &&& new_tab.branch_info == branch_info
                &&& new_tab.label@ == crate::tui::state::dir_label_spec(old_tab.panel@.panel.dir@)
            },
    {
        let toggled = self.with_toggle_dual_mode(git_statuses, branch_info);
        let msg = if toggled.is_dual_mode() {
            to_owned_string("Dual panel mode")
        } else {
            to_owned_string("Single panel mode")
        };
        toggled.with_status(msg)
    }
}

/// `a` is `s` showing the panel `pv` in the active tab of a remote server
/// (no git information).
pub open spec fn remote_shown(a: AppView, s: AppView, pv: PanelStateView) -> bool {
    &&& shows_panel(a, s, pv)
    &&& a.active_tab().git_statuses is None
    &&& a.active_tab().branch_info is None
}

/// The effect of listing the remote directory `path`, where a session is open.
pub open spec fn remote_listing(has_session: bool, path: Seq<char>, e: Effect) -> bool {
    if has_session {
        e matches Effect::RemoteList(q) && q@ == path
    } else {
        e is Done
    }
}

/// The directory a remote "up" leads to.
pub open spec fn remote_parent(cwd: Seq<char>) -> Seq<char> {
    match std_parent(cwd) {
        Some(q) => q,
        None => "/"@,
    }
}

/// What `cmd` does while a remote server is browsed: the cursor moves
/// locally, directories are listed by the server, the rest is refused.
pub open spec fn remote_command_step(s: AppView, cmd: Command, has_session: bool, a: AppView, e: Effect) -> bool {
    let p = s.active_tab().panel@;
    match cmd {
        Command::CursorDown => e is Done && remote_shown(a, s, PanelStateView {
            panel: PanelView {
                selected: if p.panel.selected + 1 < p.panel.entries.len() {
                    p.panel.selected + 1
                } else {
                    p.panel.selected
                },
                ..p.panel
            },
            ..p
        }),
        Command::CursorUp => e is Done && remote_shown(a, s, PanelStateView {
            panel: PanelView {
                selected: if p.panel.selected == 0 {
                    0
                } else {
                    clamp_selection(p.panel.selected - 1, p.panel.entries.len() as int)
                },
                ..p.panel
            },
            ..p
        }),
        Command::Enter => if p.panel.selected < p.panel.entries.len() {
            let en = p.panel.entries[p.panel.selected]@;
            if en.is_dir {
                a == s && remote_listing(has_session, en.path, e)
            } else {
                e is Done && with_message(s, a, "Remote file — open not supported"@)
            }
        } else {
            a == s && e is Done
        },
        Command::GoUp => a == s && match s.remote_context {
            Some(ctx) => if remote_parent(ctx.remote_cwd@) == ctx.remote_cwd@ {
                e is Done
            } else {
                remote_listing(has_session, remote_parent(ctx.remote_cwd@), e)
            },
            None => e is Done,
        },
        Command::Refresh => a == s && match s.remote_context {
            Some(ctx) => remote_listing(has_session, ctx.remote_cwd@, e),
            None => e is Done,
        },
        Command::ToggleHidden => e is Done && with_message(s, a, "Toggle hidden not supported in remote mode"@),
        _ => e is Done && with_message(s, a, "Operation not supported in remote mode"@),
    }
}

impl App {
    /// Carries out `cmd` while a remote server is browsed.
    fn handle_remote_command(self, cmd: Command, has_session: bool) -> (r: (Self, Effect))
        requires
            self.wf(),
            self@.remote_context is Some,
        ensures
            r.0.wf(),
            remote_command_step(self@, cmd, has_session, r.0@, r.1),
    {
        match cmd {
            Command::CursorDown => {
                let panel = self.panel().duplicate().with_cursor_down();
                (self.with_panel(panel, None, None), Effect::Done)
            },
            Command::CursorUp => {
                let panel = self.panel().duplicate().with_cursor_up();
                (self.with_panel(panel, None, None), Effect::Done)
            },
            Command::Enter => {
                let picked = match self.panel().selected_entry() {
                    Some(e) => Some((e.is_dir(), to_owned_string(e.path()))),
                    None => None,
                };
                match picked {
                    Some((true, path)) => if has_session {
                        (self, Effect::RemoteList(path))
                    } else {
                        (self, Effect::Done)
                    },
                    Some((false, _)) => (
                        self.with_status(to_owned_string("Remote file — open not supported")),
                        Effect::Done,
                    ),
                    None => (self, Effect::Done),
                }
            },
            Command::GoUp => {
                let cwd = match self.remote_context() {
                    Some(c) => c.remote_cwd.clone(),
                    None => {
                        return (self, Effect::Done);
                    },
                };
                let parent = match path_parent(cwd.as_str()) {
                    Some(q) => q,
                    None => to_owned_string("/"),
                };
                if str_eq(parent.as_str(), cwd.as_str()) || !has_session {
                    (self, Effect::Done)
                } else {
                    (self, Effect::RemoteList(parent))
                }
            },
            Command::Refresh => {
                let cwd = match self.remote_context() {
                    Some(c) => c.remote_cwd.clone(),
                    None => {
                        return (self, Effect::Done);
                    },
                };
                if has_session {
                    (self, Effect::RemoteList(cwd))
                } else {
                    (self, Effect::Done)
                }
            },
            Command::ToggleHidden => (
                self.with_status(to_owned_string("Toggle hidden not supported in remote mode")),
                Effect::Done,
            ),
            _ => (self.with_status(to_owned_string("Operation not supported in remote mode")), Effect::Done),
        }
    }
}

/// A copy of a list of texts.
fn copy_texts(v: &Vec<String>) -> (r: Vec<String>)
    ensures
        r@ == v@,
{
    let mut r: Vec<String> = Vec::new();
    for i in 0..v.len()
        invariant
            r@ == v@.take(i as int),
    {
        r.push(v[i].clone());
        proof {
            assert(v@.take(i + 1) =~= v@.take(i as int).push(v@[i as int]));
        }
    }
    proof {
        assert(v@.take(v@.len() as int) =~= v@);
    }
    r
}

/// The form with nothing typed in it.
pub open spec fn blank_form(f: ConnectFormState) -> bool {
    &&& f.host@.len() == 0
    &&& f.port@ == "22"@
    &&& f.username@.len() == 0
    &&& f.password@.len() == 0
    &&& f.focused == ConnectField::Host
    &&& f.error_message is None
    &&& !f.is_connecting
}

/// The panel of `s` with its cursor at `selected`.
pub open spec fn cursor_at(s: AppView, selected: int) -> PanelStateView {
    let p = s.active_tab().panel@;
    PanelStateView { panel: PanelView { selected, ..p.panel }, ..p }
}

/// `a` shows the panel `pv` (the active one with its cursor moved); the
/// git information is read again where the directory is local.
pub open spec fn cursor_moved(s: AppView, pv: PanelStateView, a: AppView, e: Effect) -> bool {
    if s.remote_context is Some {
        e is Done && remote_shown(a, s, pv)
    } else {
        e is RefreshGit && shows_panel(a, s, pv)
    }
}

/// Entering mode `m`: the recent files are searched for, the duplicate
/// list and the sort popup open on their first (current) entry, and the
/// remote form, while a server is browsed and `may_disconnect` holds,
/// disconnects instead.
pub open spec fn enter_mode_step(s: AppView, m: AppMode, may_disconnect: bool, a: AppView, e: Effect) -> bool {
    match m {
        AppMode::RecentFiles => a == s && e is LoadRecent,
        AppMode::DuplicateFiles => e is Done && a == (AppView {
            mode: AppMode::DuplicateFiles,
            duplicate_selected: 0,
            ..s
        }),
        AppMode::SortSelect { .. } => e is Done && a == (AppView {
            mode: AppMode::SortSelect { selected: sort_index(s.active_tab().panel@.sort_field) },
            ..s
        }),
        AppMode::RemoteConnect => if may_disconnect && s.remote_context is Some {
            e is Disconnect && with_message(
                AppView { remote_context: None, mode: AppMode::Normal, ..s },
                a,
                "Disconnected from remote server"@,
            )
        } else {
            e is Done && a == (AppView { mode: AppMode::RemoteConnect, ..s })
        },
        _ => e is Done && a == (AppView { mode: m, ..s }),
    }
}

/// Asking to delete the selected entry.
pub open spec fn request_delete_step(s: AppView, a: AppView, e: Effect) -> bool {
    let p = s.active_tab().panel@.panel;
    &&& e is Done
    &&& if p.selected < p.entries.len() {
        &&& a.mode matches AppMode::Confirm(ConfirmAction::Delete(v)) && v@.len() == 1 && v@[0]@
            == p.entries[p.selected]@.path
        &&& a == (AppView { mode: a.mode, ..s })
    } else {
        a == s
    }
}

/// Opening the selected file in the editor.
pub open spec fn edit_step(s: AppView, a: AppView, e: Effect) -> bool {
    let p = s.active_tab().panel@.panel;
    if s.remote_context is Some {
        e is Done && with_message(s, a, "Edit not supported in remote mode"@)
    } else if p.selected < p.entries.len() {
        if p.entries[p.selected]@.is_dir {
            e is Done && with_message(s, a, "Cannot edit a directory"@)
        } else {
            a == s && (e matches Effect::Edit(q) && q@ == p.entries[p.selected]@.path)
        }
    } else {
        a == s && e is Done
    }
}

/// The user approved what the confirmation dialog asked.
pub open spec fn confirm_step(s: AppView, a: AppView, e: Effect) -> bool {
    match s.mode {
        AppMode::Confirm(ConfirmAction::Delete(paths)) => a == s && (e matches Effect::Delete(q) && q@ == paths@),
        AppMode::Confirm(ConfirmAction::DeleteDuplicate(path)) => a == s && (e matches Effect::DeleteDuplicate(q)
            && q@ == path@),
        _ => e is Done && a == (AppView { mode: AppMode::Normal, ..s }),
    }
}

/// Toggling dual panel mode: leaving it at once, entering it once the right
/// panel's git information is read.
pub open spec fn toggle_dual_step(s: AppView, a: AppView, e: Effect) -> bool {
    if s.remote_context is Some {
        e is Done && with_message(s, a, "Dual panel not supported in remote mode"@)
    } else if s.dual_mode {
        e is Done && with_message(AppView { dual_mode: false, ..s }, a, "Single panel mode"@)
    } else {
        a == s && e is ToggleDual
    }
}

/// Focusing panel `i`, in dual mode.
pub open spec fn focus_step(s: AppView, i: usize, a: AppView, e: Effect) -> bool {
    &&& e is Done
    &&& a == if s.dual_mode && i <= 1 { AppView { active_panel: i as int, ..s } } else { s }
}

/// Starting the embedded terminal in the active directory.
pub open spec fn spawn_step(s: AppView, a: AppView, e: Effect) -> bool {
    a == s && (e matches Effect::SpawnTerminal(d) && d@ == s.active_tab().panel@.panel.dir@)
}

/// The descriptors the palette lists for `query`: all of them for an empty
/// query, else those that match, best score first.
pub open spec fn palette_listed(t: Seq<DescriptorView>, query: Seq<char>, r: Seq<DescriptorView>) -> bool {
    if query.len() == 0 {
        r == t
    } else {
        exists|scores: Seq<int>|
            scores.len() == r.len() && is_stable_sort_by(
                #[trigger] r.zip_with(scores),
                palette_hits(t, query),
                hit_order(),
            )
    }
}

/// What an action that the palette runs does, from normal mode `n`.
pub open spec fn palette_input_step(n: AppView, ia: InputAction, ctx: StepContext, a: AppView, e: Effect) -> bool {
    match ia {
        InputAction::Command(cmd) => a == (AppView { status_message: None, ..n }) && e == Effect::RunCommand(cmd),
        InputAction::EnterMode(m) => enter_mode_step(n, m, false, a, e),
        InputAction::Quit => e is Done && a == (AppView { should_quit: true, ..n }),
        InputAction::CursorTop => cursor_moved(n, cursor_at(n, 0), a, e),
        InputAction::CursorBottom => cursor_moved(
            n,
            cursor_at(n, sat_sub(n.active_tab().panel@.panel.entries.len() as int, 1)),
            a,
            e,
        ),
        InputAction::RequestDelete => request_delete_step(n, a, e),
        InputAction::GoHome => a == n && e is GoHome,
        InputAction::EnterPager => a == n && e is Pager,
        InputAction::EditFile => edit_step(n, a, e),
        InputAction::PanelToggleDual => toggle_dual_step(n, a, e),
        InputAction::PanelFocus(i) => focus_step(n, i, a, e),
        InputAction::TerminalToggle => if n.terminal_visible {
            e is Done && a == (AppView { terminal_visible: false, mode: AppMode::Normal, ..n })
        } else if ctx.has_terminal {
            e is Done && a == (AppView { terminal_visible: true, mode: AppMode::Terminal, ..n })
        } else {
            spawn_step(n, a, e)
        },
        _ => a == n && e is Done,
    }
}

/// What running the palette entry `action` does, from normal mode `n`.
pub open spec fn palette_run(n: AppView, action: Action, ctx: StepContext, a: AppView, e: Effect) -> bool {
    exists|ia: InputAction| #[trigger] action_input(action, ia) && palette_input_step(n, ia, ctx, a, e)
}

/// What a key action does in the lists (search results, bookmarks, recent
/// files, duplicates, sort popup).
pub open spec fn list_step(s: AppView, action: InputAction, a: AppView, e: Effect) -> bool {
    match action {
        InputAction::SearchChar(c) => e is Done && match s.mode {
            AppMode::Search(q) => researched(s, q@.push(c), a),
            _ => a == s,
        },
        InputAction::SearchBackspace => e is Done && match s.mode {
            AppMode::Search(q) => researched(s, if q@.len() > 0 { q@.drop_last() } else { q@ }, a),
            _ => a == s,
        },
        InputAction::SearchConfirm => a == s && e is SearchConfirm,
        InputAction::SearchDown => e is Done && a == (AppView {
            search_selected: cursor_down(s.search_selected, s.search_results.len() as int),
            ..s
        }),
        InputAction::SearchUp => e is Done && a == (AppView { search_selected: cursor_up(s.search_selected), ..s }),
        InputAction::BookmarkChar(c) => e is Done && match s.mode {
            AppMode::BookmarkAdd(l) => (a.mode matches AppMode::BookmarkAdd(n) && n@ == l@.push(c)) && a == (AppView {
                mode: a.mode,
                ..s
            }),
            _ => a == s,
        },
        InputAction::BookmarkBackspace => e is Done && match s.mode {
            AppMode::BookmarkAdd(l) => (a.mode matches AppMode::BookmarkAdd(n) && n@ == (if l@.len() > 0 {
                l@.drop_last()
            } else {
                l@
            })) && a == (AppView { mode: a.mode, ..s }),
            _ => a == s,
        },
        InputAction::BookmarkConfirm => match s.mode {
            AppMode::BookmarkAdd(l) => bookmark_added(s, l@, a) && (if l@.len() > 0 {
                e is SaveBookmarks
            } else {
                e is Done
            }),
            _ => a == s && e is Done,
        },
        InputAction::BookmarkDown => e is Done && match s.mode {
            AppMode::BookmarkList { selected } => a == (AppView {
                mode: AppMode::BookmarkList {
                    selected: down_to(selected as int, sat_sub(s.bookmarks@.len() as int, 1)) as usize,
                },
                ..s
            }),
            _ => a == s,
        },
        InputAction::BookmarkUp => e is Done && match s.mode {
            AppMode::BookmarkList { selected } => a == (AppView {
                mode: AppMode::BookmarkList { selected: sat_sub(selected as int, 1) as usize },
                ..s
            }),
            _ => a == s,
        },
        InputAction::BookmarkSelect => a == s && match s.mode {
            AppMode::BookmarkList { selected } => e == Effect::BookmarkJump(selected),
            _ => e is Done,
        },
        InputAction::BookmarkDelete => match s.mode {
            AppMode::BookmarkList { selected } => bookmark_removed(s, selected, a) && (if selected
                < s.bookmarks.label_list().len() {
                e is SaveBookmarks
            } else {
                e is Done
            }),
            _ => a == s && e is Done,
        },
        InputAction::RecentDown => e is Done && a == (AppView {
            recent_selected: cursor_down(s.recent_selected, s.recent_results.len() as int),
            ..s
        }),
        InputAction::RecentUp => e is Done && a == (AppView { recent_selected: cursor_up(s.recent_selected), ..s }),
        InputAction::RecentConfirm => a == s && e is RecentConfirm,
        InputAction::DuplicateDown => e is Done && a == (AppView {
            duplicate_selected: cursor_down(
                s.duplicate_selected,
                capped_count(groups_view(s.duplicate_cache.groups@)),
            ),
            ..s
        }),
        InputAction::DuplicateUp => e is Done && a == (AppView {
            duplicate_selected: cursor_up(s.duplicate_selected),
            ..s
        }),
        InputAction::DuplicateConfirm => a == s && e is DuplicateConfirm,
        InputAction::DuplicateDelete => e is Done && duplicate_delete_asked(s, a),
        InputAction::SortSelectDown => e is Done && match s.mode {
            AppMode::SortSelect { selected } => a == (AppView {
                mode: AppMode::SortSelect { selected: down_to(selected as int, 3) as usize },
                ..s
            }),
            _ => a == s,
        },
        InputAction::SortSelectUp => e is Done && match s.mode {
            AppMode::SortSelect { selected } => a == (AppView {
                mode: AppMode::SortSelect { selected: sat_sub(selected as int, 1) as usize },
                ..s
            }),
            _ => a == s,
        },
        InputAction::SortSelectConfirm => a == s && match s.mode {
            AppMode::SortSelect { selected } => e == Effect::Sort(
                sort_field_at(selected),
                s.active_tab().panel@.sort_direction,
            ),
            _ => e is Done,
        },
        InputAction::SortSetAscending => a == s && match s.mode {
            AppMode::SortSelect { selected } => e == Effect::Sort(sort_field_at(selected), SortDirection::Ascending),
            _ => e is Done,
        },
        InputAction::SortSetDescending => a == s && match s.mode {
            AppMode::SortSelect { selected } => e == Effect::Sort(sort_field_at(selected), SortDirection::Descending),
            _ => e is Done,
        },
        _ => false,
    }
}

/// The action moves in a list.
pub open spec fn is_list_action(action: InputAction) -> bool {
    match action {
        InputAction::SearchChar(_) | InputAction::SearchBackspace | InputAction::SearchConfirm
        | InputAction::SearchDown | InputAction::SearchUp | InputAction::BookmarkChar(_)
        | InputAction::BookmarkBackspace | InputAction::BookmarkConfirm | InputAction::BookmarkDown
        | InputAction::BookmarkUp | InputAction::BookmarkSelect | InputAction::BookmarkDelete
        | InputAction::RecentDown | InputAction::RecentUp | InputAction::RecentConfirm
        | InputAction::DuplicateDown | InputAction::DuplicateUp | InputAction::DuplicateConfirm
        | InputAction::DuplicateDelete | InputAction::SortSelectDown | InputAction::SortSelectUp
        | InputAction::SortSelectConfirm | InputAction::SortSetAscending | InputAction::SortSetDescending => true,
        _ => false,
    }
}

impl App {
    /// Carries out a key action of the lists.
    fn list_action(self, action: InputAction) -> (r: (Self, Effect))
        requires
            self.wf(),
            is_list_action(action),
        ensures
            r.0.wf(),
            list_step(self@, action, r.0@, r.1),
    {
        match action {
            InputAction::SearchChar(c) => (self.search_push_char(c), Effect::Done),
            InputAction::SearchBackspace => (self.search_pop_char(), Effect::Done),
            InputAction::SearchConfirm => (self, Effect::SearchConfirm),
            InputAction::SearchDown => (self.search_move_down(), Effect::Done),
            InputAction::SearchUp => (self.search_move_up(), Effect::Done),
            InputAction::BookmarkChar(c) => {
                let label = match self.mode() {
                    AppMode::BookmarkAdd(l) => pushed(l.as_str(), c),
                    _ => {
                        return (self, Effect::Done);
                    },
                };
                (self.with_mode(AppMode::BookmarkAdd(label)), Effect::Done)
            },
            InputAction::BookmarkBackspace => {
                let label = match self.mode() {
                    AppMode::BookmarkAdd(l) => popped(l.as_str()),
                    _ => {
                        return (self, Effect::Done);
                    },
                };
                (self.with_mode(AppMode::BookmarkAdd(label)), Effect::Done)
            },
            InputAction::BookmarkConfirm => {
                let label = match self.mode() {
                    AppMode::BookmarkAdd(l) => l.clone(),
                    _ => {
                        return (self, Effect::Done);
                    },
                };
                let e = if label.as_str().is_empty() { Effect::Done } else { Effect::SaveBookmarks };
                (self.bookmark_add(label.as_str()), e)
            },
            InputAction::BookmarkDown => {
                let selected = match self.mode() {
                    AppMode::BookmarkList { selected } => *selected,
                    _ => {
                        return (self, Effect::Done);
                    },
                };
                let n = self.bookmarks().len();
                let max = if n > 0 { n - 1 } else { 0 };
                let next = if selected >= max { max } else { selected + 1 };
                (self.with_mode(AppMode::BookmarkList { selected: next }), Effect::Done)
            },
            InputAction::BookmarkUp => {
                let selected = match self.mode() {
                    AppMode::BookmarkList { selected } => *selected,
                    _ => {
                        return (self, Effect::Done);
                    },
                };
                let next = if selected > 0 { selected - 1 } else { 0 };
                (self.with_mode(AppMode::BookmarkList { selected: next }), Effect::Done)
            },
            InputAction::BookmarkSelect => match self.mode() {
                AppMode::BookmarkList { selected } => {
                    let sel = *selected;
                    (self, Effect::BookmarkJump(sel))
                },
                _ => (self, Effect::Done),
            },
            InputAction::BookmarkDelete => {
                let selected = match self.mode() {
                    AppMode::BookmarkList { selected } => *selected,
                    _ => {
                        return (self, Effect::Done);
                    },
                };
                let count = self.bookmarks().len();
                proof {
                    self@.bookmarks.lemma_label_list();
                }
                let e = if selected < count { Effect::SaveBookmarks } else { Effect::Done };
                (self.bookmark_delete(selected), e)
            },
            InputAction::RecentDown => (self.recent_move_down(), Effect::Done),
            InputAction::RecentUp => (self.recent_move_up(), Effect::Done),
            InputAction::RecentConfirm => (self, Effect::RecentConfirm),
            InputAction::DuplicateDown => (self.duplicate_move_down(), Effect::Done),
            InputAction::DuplicateUp => (self.duplicate_move_up(), Effect::Done),
            InputAction::DuplicateConfirm => (self, Effect::DuplicateConfirm),
            InputAction::DuplicateDelete => (self.duplicate_delete_selected(), Effect::Done),
            InputAction::SortSelectDown => {
                let selected = match self.mode() {
                    AppMode::SortSelect { selected } => *selected,
                    _ => {
                        return (self, Effect::Done);
                    },
                };
                let next = if selected >= 3 { 3 } else { selected + 1 };
                (self.with_mode(AppMode::SortSelect { selected: next }), Effect::Done)
            },
            InputAction::SortSelectUp => {
                let selected = match self.mode() {
                    AppMode::SortSelect { selected } => *selected,
                    _ => {
                        return (self, Effect::Done);
                    },
                };
                let next = if selected > 0 { selected - 1 } else { 0 };
                (self.with_mode(AppMode::SortSelect { selected: next }), Effect::Done)
            },
            InputAction::SortSelectConfirm | InputAction::SortSetAscending | InputAction::SortSetDescending => {
                let selected = match self.mode() {
                    AppMode::SortSelect { selected } => *selected,
                    _ => {
                        return (self, Effect::Done);
                    },
                };
                let field = field_at(selected);
                let direction = match action {
                    InputAction::SortSetAscending => SortDirection::Ascending,
                    InputAction::SortSetDescending => SortDirection::Descending,
                    _ => self.panel().sort_direction(),
                };
                (self, Effect::Sort(field, direction))
            },
            _ => (self, Effect::Done),
        }
    }
}

/// What a key action does in the pager; `half` is half a screen.
pub open spec fn pager_step(s: AppView, action: InputAction, half: usize, a: AppView, e: Effect) -> bool {
    let max = sat_sub(s.pager_lines.len() as int, 1);
    &&& e is Done
    &&& match action {
        InputAction::PagerDown => match s.mode {
            AppMode::Pager { scroll } => a == (AppView {
                mode: AppMode::Pager { scroll: down_to(scroll as int, max) as usize },
                ..s
            }),
            _ => a == s,
        },
        InputAction::PagerUp => match s.mode {
            AppMode::Pager { scroll } => a == (AppView {
                mode: AppMode::Pager { scroll: sat_sub(scroll as int, 1) as usize },
                ..s
            }),
            _ => a == s,
        },
        InputAction::PagerHalfDown => match s.mode {
            AppMode::Pager { scroll } => a == (AppView {
                mode: AppMode::Pager { scroll: if scroll + half <= max { (scroll + half) as usize } else { max as usize } },
                ..s
            }),
            _ => a == s,
        },
        InputAction::PagerHalfUp => match s.mode {
            AppMode::Pager { scroll } => a == (AppView {
                mode: AppMode::Pager { scroll: sat_sub(scroll as int, half as int) as usize },
                ..s
            }),
            _ => a == s,
        },
        InputAction::PagerTop => a == (AppView { mode: AppMode::Pager { scroll: 0 }, ..s }),
        InputAction::PagerBottom => a == (AppView { mode: AppMode::Pager { scroll: max as usize }, ..s }),
        _ => false,
    }
}

/// The action scrolls the pager.
pub open spec fn is_pager_action(action: InputAction) -> bool {
    match action {
        InputAction::PagerDown | InputAction::PagerUp | InputAction::PagerHalfDown | InputAction::PagerHalfUp
        | InputAction::PagerTop | InputAction::PagerBottom => true,
        _ => false,
    }
}

/// What a key action does in the command palette.
pub open spec fn palette_step(s: AppView, action: InputAction, ctx: StepContext, a: AppView, e: Effect) -> bool {
    let t = s.action_registry.table();
    match action {
        InputAction::CommandPaletteChar(c) => e is Done && match s.mode {
            AppMode::CommandPalette { query, selected } => (a.mode matches AppMode::CommandPalette { query: nq, selected: ns }
                && nq@ == query@.push(c) && ns == 0) && a == (AppView { mode: a.mode, ..s }),
            _ => a == s,
        },
        InputAction::CommandPaletteBackspace => e is Done && match s.mode {
            AppMode::CommandPalette { query, selected } => (a.mode matches AppMode::CommandPalette { query: nq, selected: ns }
                && nq@ == (if query@.len() > 0 { query@.drop_last() } else { query@ }) && ns == 0) && a == (AppView {
                mode: a.mode,
                ..s
            }),
            _ => a == s,
        },
        InputAction::CommandPaletteDown => e is Done && match s.mode {
            AppMode::CommandPalette { query, selected } => exists|r: Seq<DescriptorView>|
                #[trigger] palette_listed(t, query@, r) && a == (AppView {
                    mode: AppMode::CommandPalette {
                        query,
                        selected: down_to(selected as int, sat_sub(r.len() as int, 1)) as usize,
                    },
                    ..s
                }),
            _ => a == s,
        },
        InputAction::CommandPaletteUp => e is Done && match s.mode {
            AppMode::CommandPalette { query, selected } => a == (AppView {
                mode: AppMode::CommandPalette { query, selected: sat_sub(selected as int, 1) as usize },
                ..s
            }),
            _ => a == s,
        },
        InputAction::CommandPaletteConfirm => match s.mode {
            AppMode::CommandPalette { query, selected } => exists|r: Seq<DescriptorView>|
                #[trigger] palette_listed(t, query@, r) && (if selected < r.len() {
                    palette_run(AppView { mode: AppMode::Normal, ..s }, r[selected as int].action, ctx, a, e)
                } else {
                    e is Done && a == (AppView { mode: AppMode::Normal, ..s })
                }),
            _ => a == s && e is Done,
        },
        InputAction::CommandPaletteCancel => e is Done && a == (AppView { mode: AppMode::Normal, ..s }),
        _ => false,
    }
}

/// The action works the command palette.
pub open spec fn is_palette_action(action: InputAction) -> bool {
    match action {
        InputAction::CommandPaletteChar(_) | InputAction::CommandPaletteBackspace | InputAction::CommandPaletteDown
        | InputAction::CommandPaletteUp | InputAction::CommandPaletteConfirm | InputAction::CommandPaletteCancel => true,
        _ => false,
    }
}

/// What a key action does in the remote connection form.
pub open spec fn form_step(s: AppView, action: InputAction, a: AppView, e: Effect) -> bool {
    let f = s.connect_form;
    match action {
        InputAction::RemoteConnectChar(c) => e is Done && form_edited(f, a.connect_form, f.focused_text().push(c))
            && a == (AppView { connect_form: a.connect_form, ..s }),
        InputAction::RemoteConnectBackspace => e is Done && form_edited(
            f,
            a.connect_form,
            if f.focused_text().len() > 0 { f.focused_text().drop_last() } else { f.focused_text() },
        ) && a == (AppView { connect_form: a.connect_form, ..s }),
        InputAction::RemoteConnectNextField => e is Done && a == (AppView {
            connect_form: ConnectFormState { focused: f.focused.next_spec(), ..f },
            ..s
        }),
        InputAction::RemoteConnectPrevField => e is Done && a == (AppView {
            connect_form: ConnectFormState { focused: f.focused.prev_spec(), ..f },
            ..s
        }),
        InputAction::RemoteConnectCancel => e is Done && blank_form(a.connect_form) && a == (AppView {
            connect_form: a.connect_form,
            mode: AppMode::Normal,
            ..s
        }),
        InputAction::RemoteConnectConfirm => if f.host@.len() == 0 || f.username@.len() == 0 {
            &&& e is Done
            &&& a == (AppView { connect_form: a.connect_form, ..s })
            &&& a.connect_form == (ConnectFormState { error_message: a.connect_form.error_message, ..f })
            &&& a.connect_form.error_message is Some
            &&& a.connect_form.error_message.unwrap()@ == "Host and username are required"@
        } else {
            &&& e matches Effect::Connect(c) && c.host == f.host && c.port == port_of(f.port@) && c.username == f.username
                && c.password == f.password
            &&& a == (AppView {
                connect_form: ConnectFormState { is_connecting: true, error_message: None, ..f },
                ..s
            })
        },
        _ => false,
    }
}

/// The action works the remote connection form.
pub open spec fn is_form_action(action: InputAction) -> bool {
    match action {
        InputAction::RemoteConnectChar(_) | InputAction::RemoteConnectBackspace | InputAction::RemoteConnectNextField
        | InputAction::RemoteConnectPrevField | InputAction::RemoteConnectCancel | InputAction::RemoteConnectConfirm => true,
        _ => false,
    }
}

/// What a key action does to the embedded terminal.
pub open spec fn terminal_step(s: AppView, action: InputAction, ctx: StepContext, a: AppView, e: Effect) -> bool {
    match action {
        InputAction::TerminalToggle => if s.mode is Terminal {
            e is Done && a == (AppView { mode: AppMode::Normal, ..s })
        } else if s.terminal_visible {
            e is Done && a == (AppView { mode: AppMode::Terminal, ..s })
        } else if ctx.has_terminal {
            e is Done && a == (AppView { terminal_visible: true, mode: AppMode::Terminal, ..s })
        } else {
            spawn_step(s, a, e)
        },
        InputAction::TerminalUnfocus => e is Done && a == (AppView { mode: AppMode::Normal, ..s }),
        InputAction::TerminalInput(k) => a == s && e == Effect::TerminalKey(k),
        _ => false,
    }
}

/// The action works the embedded terminal.
pub open spec fn is_terminal_action(action: InputAction) -> bool {
    match action {
        InputAction::TerminalToggle | InputAction::TerminalUnfocus | InputAction::TerminalInput(_) => true,
        _ => false,
    }
}

/// What any other key action does: commands, modes, the cursor, the
/// selected entry, panels.
pub open spec fn main_step(s: AppView, action: InputAction, ctx: StepContext, a: AppView, e: Effect) -> bool {
    match action {
        InputAction::Command(cmd) => if s.remote_context is Some {
            remote_command_step(s, cmd, ctx.has_session, a, e)
        } else {
            a == (AppView { status_message: None, ..s }) && e == Effect::RunCommand(cmd)
        },
        InputAction::EnterMode(m) => enter_mode_step(s, m, true, a, e),
        InputAction::Quit => e is Done && a == (AppView { should_quit: true, ..s }),
        InputAction::CursorTop => cursor_moved(s, cursor_at(s, 0), a, e),
        InputAction::CursorBottom => cursor_moved(
            s,
            cursor_at(s, sat_sub(s.active_tab().panel@.panel.entries.len() as int, 1)),
            a,
            e,
        ),
        InputAction::GoHome => if s.remote_context is Some {
            e is Done && with_message(s, a, "Go home not supported in remote mode"@)
        } else {
            a == s && e is GoHome
        },
        InputAction::RequestDelete => request_delete_step(s, a, e),
        InputAction::EditFile => edit_step(s, a, e),
        InputAction::ConfirmApproved => confirm_step(s, a, e),
        InputAction::EnterPager => a == s && e is Pager,
        InputAction::PanelToggleDual => toggle_dual_step(s, a, e),
        InputAction::PanelFocus(i) => focus_step(s, i, a, e),
        _ => a == s && e is Done,
    }
}

/// What the key action `action` does to the state `s`: `a` is the next
/// state and `e` the work left to the loop.
pub open spec fn action_step(s: AppView, action: InputAction, ctx: StepContext, a: AppView, e: Effect) -> bool {
    if is_list_action(action) {
        list_step(s, action, a, e)
    } else if is_pager_action(action) {
        pager_step(s, action, ctx.half_page, a, e)
    } else if is_palette_action(action) {
        palette_step(s, action, ctx, a, e)
    } else if is_form_action(action) {
        form_step(s, action, a, e)
    } else if is_terminal_action(action) {
        terminal_step(s, action, ctx, a, e)
    } else {
        main_step(s, action, ctx, a, e)
    }
}

impl App {
    /// Moves the active panel's cursor to `index` (clamped).
    fn cursor_to(self, index: usize) -> (r: (Self, Effect))
        requires
            self.wf(),
        ensures
            r.0.wf(),
            cursor_moved(
                self@,
                cursor_at(self@, clamp_selection(index as int, self@.active_tab().panel@.panel.entries.len() as int)),
                r.0@,
                r.1,
            ),
    {
        let panel = self.panel().duplicate().with_cursor_to(index);
        if self.is_remote() {
            (self.with_panel(panel, None, None), Effect::Done)
        } else {
            (self.show_panel(panel), Effect::RefreshGit)
        }
    }

    /// Moves the cursor to the first entry.
    fn cursor_top(self) -> (r: (Self, Effect))
        requires
            self.wf(),
        ensures
            r.0.wf(),
            cursor_moved(self@, cursor_at(self@, 0), r.0@, r.1),
    {
        self.cursor_to(0)
    }

    /// Moves the cursor to the last entry.
    fn cursor_bottom(self) -> (r: (Self, Effect))
        requires
            self.wf(),
        ensures
            r.0.wf(),
            cursor_moved(
                self@,
                cursor_at(self@, sat_sub(self@.active_tab().panel@.panel.entries.len() as int, 1)),
                r.0@,
                r.1,
            ),
    {
        let n = self.panel().entries().len();
        let last = if n > 0 { n - 1 } else { 0 };
        self.cursor_to(last)
    }

    /// Enters mode `m` (see [`enter_mode_step`]).
    fn enter_mode(self, m: AppMode, may_disconnect: bool) -> (r: (Self, Effect))
        requires
            self.wf(),
        ensures
            r.0.wf(),
            enter_mode_step(self@, m, may_disconnect, r.0@, r.1),
    {
        match m {
            AppMode::RecentFiles => (self, Effect::LoadRecent),
            AppMode::DuplicateFiles => (self.show_duplicate_files(), Effect::Done),
            AppMode::SortSelect { .. } => {
                let idx = sort_position(self.panel().sort_field());
                (self.with_mode(AppMode::SortSelect { selected: idx }), Effect::Done)
            },
            AppMode::RemoteConnect => if may_disconnect && self.is_remote() {
                let app = self.with_remote_context(None).with_mode(AppMode::Normal).with_status(
                    to_owned_string("Disconnected from remote server"),
                );
                (app, Effect::Disconnect)
            } else {
                (self.with_mode(AppMode::RemoteConnect), Effect::Done)
            },
            _ => (self.with_mode(m), Effect::Done),
        }
    }

    /// Asks to confirm the deletion of the selected entry.
    fn ask_delete(self) -> (r: (Self, Effect))
        requires
            self.wf(),
        ensures
            r.0.wf(),
            request_delete_step(self@, r.0@, r.1),
    {
        let path = match self.panel().selected_entry() {
            Some(e) => to_owned_string(e.path()),
            None => {
                return (self, Effect::Done);
            },
        };
        let paths = vec![path];
        (self.with_mode(AppMode::Confirm(ConfirmAction::Delete(paths))), Effect::Done)
    }

    /// Opens the selected file in the editor.
    fn edit_selected(self) -> (r: (Self, Effect))
        requires
            self.wf(),
        ensures
            r.0.wf(),
            edit_step(self@, r.0@, r.1),
    {
        if self.is_remote() {
            return (self.with_status(to_owned_string("Edit not supported in remote mode")), Effect::Done);
        }
        let picked = match self.panel().selected_entry() {
            Some(e) => Some((e.is_dir(), to_owned_string(e.path()))),
            None => None,
        };
        match picked {
            Some((true, _)) => (self.with_status(to_owned_string("Cannot edit a directory")), Effect::Done),
            Some((false, path)) => (self, Effect::Edit(path)),
            None => (self, Effect::Done),
        }
    }

    /// Toggles dual panel mode from the keyboard.
    fn dual_key(self) -> (r: (Self, Effect))
        requires
            self.wf(),
        ensures
            r.0.wf(),
            toggle_dual_step(self@, r.0@, r.1),
    {
        if self.is_remote() {
            (self.with_status(to_owned_string("Dual panel not supported in remote mode")), Effect::Done)
        } else if self.is_dual_mode() {
            (self.toggle_dual(None, None), Effect::Done)
        } else {
            (self, Effect::ToggleDual)
        }
    }

    /// Focuses panel `i` in dual mode.
    fn focus(self, i: usize) -> (r: (Self, Effect))
        ensures
            focus_step(self@, i, r.0@, r.1),
    {
        if self.is_dual_mode() {
            (self.with_active_panel(i), Effect::Done)
        } else {
            (self, Effect::Done)
        }
    }

    /// Starts the embedded terminal in the active directory.
    fn spawn_terminal(self) -> (r: (Self, Effect))
        requires
            self.wf(),
        ensures
            r.0.wf(),
            spawn_step(self@, r.0@, r.1),
    {
        let dir = to_owned_string(self.panel().current_dir());
        (self, Effect::SpawnTerminal(dir))
    }

    /// Scrolls the pager.
    fn pager_action(self, action: InputAction, half: usize) -> (r: (Self, Effect))
        requires
            self.wf(),
            is_pager_action(action),
        ensures
            r.0.wf(),
            pager_step(self@, action, half, r.0@, r.1),
    {
        let n = self.pager_lines().len();
        let max = if n > 0 { n - 1 } else { 0 };
        let scroll = match self.mode() {
            AppMode::Pager { scroll } => Some(*scroll),
            _ => None,
        };
        match action {
            InputAction::PagerTop => (self.with_mode(AppMode::Pager { scroll: 0 }), Effect::Done),
            InputAction::PagerBottom => (self.with_mode(AppMode::Pager { scroll: max }), Effect::Done),
            _ => match scroll {
                None => (self, Effect::Done),
                Some(sc) => {
                    let next = match action {
                        InputAction::PagerDown => if sc >= max { max } else { sc + 1 },
                        InputAction::PagerUp => if sc > 0 { sc - 1 } else { 0 },
                        InputAction::PagerHalfDown => if half > max || sc > max - half { max } else { sc + half },
                        _ => if sc > half { sc - half } else { 0 },
                    };
                    (self.with_mode(AppMode::Pager { scroll: next }), Effect::Done)
                },
            },
        }
    }

    /// Works the remote connection form.
    fn form_action(self, action: InputAction) -> (r: (Self, Effect))
        requires
            self.wf(),
            is_form_action(action),
        ensures
            r.0.wf(),
            form_step(self@, action, r.0@, r.1),
    {
        let form = form_copy(self.connect_form());
        match action {
            InputAction::RemoteConnectChar(c) => (self.with_connect_form(form_push(form, c)), Effect::Done),
            InputAction::RemoteConnectBackspace => (self.with_connect_form(form_pop(form)), Effect::Done),
            InputAction::RemoteConnectNextField => {
                let mut form = form;
                form.focused = form.focused.next();
                (self.with_connect_form(form), Effect::Done)
            },
            InputAction::RemoteConnectPrevField => {
                let mut form = form;
                form.focused = form.focused.prev();
                (self.with_connect_form(form), Effect::Done)
            },
            InputAction::RemoteConnectCancel => (
                self.with_connect_form(ConnectFormState::default()).with_mode(AppMode::Normal),
                Effect::Done,
            ),
            _ => {
                if form.host.as_str().is_empty() || form.username.as_str().is_empty() {
                    let mut form = form;
                    form.error_message = Some(to_owned_string("Host and username are required"));
                    (self.with_connect_form(form), Effect::Done)
                } else {
                    let port = parse_port(form.port.as_str());
                    let config = SftpConfig {
                        host: form.host.clone(),
                        port,
                        username: form.username.clone(),
                        password: form.password.clone(),
                    };
                    let mut form = form;
                    form.is_connecting = true;
                    form.error_message = None;
                    (self.with_connect_form(form), Effect::Connect(config))
                }
            },
        }
    }

    /// Works the embedded terminal.
    fn terminal_action(self, action: InputAction, ctx: StepContext) -> (r: (Self, Effect))
        requires
            self.wf(),
            is_terminal_action(action),
        ensures
            r.0.wf(),
            terminal_step(self@, action, ctx, r.0@, r.1),
    {
        match action {
            InputAction::TerminalToggle => {
                let focused = match self.mode() {
                    AppMode::Terminal => true,
                    _ => false,
                };
                if focused {
                    (self.with_mode(AppMode::Normal), Effect::Done)
                } else if self.terminal_visible() {
                    (self.with_mode(AppMode::Terminal), Effect::Done)
                } else if ctx.has_terminal {
                    (self.with_terminal_visible(true).with_mode(AppMode::Terminal), Effect::Done)
                } else {
                    self.spawn_terminal()
                }
            },
            InputAction::TerminalUnfocus => (self.with_mode(AppMode::Normal), Effect::Done),
            InputAction::TerminalInput(k) => (self, Effect::TerminalKey(k)),
            _ => (self, Effect::Done),
        }
    }
}

impl App {
    /// Runs an action that the palette confirmed, from normal mode.
    fn palette_input(self, ia: InputAction, ctx: StepContext) -> (r: (Self, Effect))
        requires
            self.wf(),
        ensures
            r.0.wf(),
            palette_input_step(self@, ia, ctx, r.0@, r.1),
    {
        match ia {
            InputAction::Command(cmd) => (self.with_clear_status(), Effect::RunCommand(cmd)),
            InputAction::EnterMode(m) => self.enter_mode(m, false),
            InputAction::Quit => (self.with_quit(), Effect::Done),
            InputAction::CursorTop => self.cursor_top(),
            InputAction::CursorBottom => self.cursor_bottom(),
            InputAction::RequestDelete => self.ask_delete(),
            InputAction::GoHome => (self, Effect::GoHome),
            InputAction::EnterPager => (self, Effect::Pager),
            InputAction::EditFile => self.edit_selected(),
            InputAction::PanelToggleDual => self.dual_key(),
            InputAction::PanelFocus(i) => self.focus(i),
            InputAction::TerminalToggle => {
                if self.terminal_visible() {
                    (self.with_terminal_visible(false).with_mode(AppMode::Normal), Effect::Done)
                } else if ctx.has_terminal {
                    (self.with_terminal_visible(true).with_mode(AppMode::Terminal), Effect::Done)
                } else {
                    self.spawn_terminal()
                }
            },
            _ => (self, Effect::Done),
        }
    }

    /// Works the command palette.
    fn palette_action(self, action: InputAction, ctx: StepContext) -> (r: (Self, Effect))
        requires
            self.wf(),
            is_palette_action(action),
        ensures
            r.0.wf(),
            palette_step(self@, action, ctx, r.0@, r.1),
    {
        let (query, selected) = match self.mode() {
            AppMode::CommandPalette { query, selected } => (query.clone(), *selected),
            _ => {
                return match action {
                    InputAction::CommandPaletteCancel => (self.with_mode(AppMode::Normal), Effect::Done),
                    _ => (self, Effect::Done),
                };
            },
        };
        match action {
            InputAction::CommandPaletteChar(c) => {
                let q = pushed(query.as_str(), c);
                (self.with_mode(AppMode::CommandPalette { query: q, selected: 0 }), Effect::Done)
            },
            InputAction::CommandPaletteBackspace => {
                let q = popped(query.as_str());
                (self.with_mode(AppMode::CommandPalette { query: q, selected: 0 }), Effect::Done)
            },
            InputAction::CommandPaletteUp => {
                let next = if selected > 0 { selected - 1 } else { 0 };
                (self.with_mode(AppMode::CommandPalette { query, selected: next }), Effect::Done)
            },
            InputAction::CommandPaletteCancel => (self.with_mode(AppMode::Normal), Effect::Done),
            _ => {
                let ghost t = self@.action_registry.table();
                let results = self.action_registry().fuzzy_search(query.as_str());
                let ghost w = refs_view(results@);
                proof {
                    if query@.len() == 0 {
                        assert(w =~= results@.map_values(|d: &ActionDescriptor| d@));
                    }
                    assert(palette_listed(t, query@, w));
                }
                let count = results.len();
                let picked: Option<Action> = if selected < count {
                    Some(results[selected].action)
                } else {
                    None
                };
                if let InputAction::CommandPaletteDown = action {
                    let max = if count > 0 { count - 1 } else { 0 };
                    let next = if selected >= max { max } else { selected + 1 };
                    let app = self.with_mode(AppMode::CommandPalette { query, selected: next });
                    return (app, Effect::Done);
                }
                let app = self.with_mode(AppMode::Normal);
                match picked {
                    Some(act) => {
                        let ia = resolve_action(act);
                        let r = app.palette_input(ia, ctx);
                        proof {
                            assert(w[selected as int].action == act);
                            assert(action_input(act, ia) && palette_input_step(AppView { mode: AppMode::Normal, ..self@ }, ia, ctx, r.0@, r.1));
                        }
                        r
                    },
                    None => (app, Effect::Done),
                }
            },
        }
    }

    /// Carries out the key actions outside lists, pager, palette, form and
    /// terminal.
    fn main_action(self, action: InputAction, ctx: StepContext) -> (r: (Self, Effect))
        requires
            self.wf(),
        ensures
            r.0.wf(),
            main_step(self@, action, ctx, r.0@, r.1),
    {
        match action {
            InputAction::Command(cmd) => if self.is_remote() {
                self.handle_remote_command(cmd, ctx.has_session)
            } else {
                (self.with_clear_status(), Effect::RunCommand(cmd))
            },
            InputAction::EnterMode(m) => self.enter_mode(m, true),
            InputAction::Quit => (self.with_quit(), Effect::Done),
            InputAction::CursorTop => self.cursor_top(),
            InputAction::CursorBottom => self.cursor_bottom(),
            InputAction::GoHome => if self.is_remote() {
                (self.with_status(to_owned_string("Go home not supported in remote mode")), Effect::Done)
            } else {
                (self, Effect::GoHome)
            },
            InputAction::RequestDelete => self.ask_delete(),
            InputAction::EditFile => self.edit_selected(),
            InputAction::ConfirmApproved => {
                let e = match self.mode() {
                    AppMode::Confirm(ConfirmAction::Delete(paths)) => Effect::Delete(copy_texts(paths)),
                    AppMode::Confirm(ConfirmAction::DeleteDuplicate(path)) => Effect::DeleteDuplicate(path.clone()),
                    _ => Effect::Done,
                };
                match e {
                    Effect::Done => (self.with_mode(AppMode::Normal), Effect::Done),
                    _ => (self, e),
                }
            },
            InputAction::EnterPager => (self, Effect::Pager),
            InputAction::PanelToggleDual => self.dual_key(),
            InputAction::PanelFocus(i) => self.focus(i),
            _ => (self, Effect::Done),
        }
    }

    /// One turn of the event loop for the key action `action` (what
    /// [`crate::tui::input::handle_key`] made of a key press): the next
    /// state, and the work the loop must do outside the library.
    pub fn on_action(self, action: InputAction, ctx: StepContext) -> (r: (Self, Effect))
        requires
            self.wf(),
        ensures
            r.0.wf(),
            action_step(self@, action, ctx, r.0@, r.1),
    {
        if is_list(&action) {
            self.list_action(action)
        } else if is_pager(&action) {
            self.pager_action(action, ctx.half_page)
        } else if is_palette(&action) {
            self.palette_action(action, ctx)
        } else if is_form(&action) {
            self.form_action(action)
        } else if is_terminal(&action) {
            self.terminal_action(action, ctx)
        } else {
            self.main_action(action, ctx)
        }
    }
}

fn is_list(action: &InputAction) -> (b: bool)
    ensures
        b == is_list_action(*action),
{
    match action {
        InputAction::SearchChar(_) | InputAction::SearchBackspace | InputAction::SearchConfirm
        | InputAction::SearchDown | InputAction::SearchUp | InputAction::BookmarkChar(_)
        | InputAction::BookmarkBackspace | InputAction::BookmarkConfirm | InputAction::BookmarkDown
        | InputAction::BookmarkUp | InputAction::BookmarkSelect | InputAction::BookmarkDelete
        | InputAction::RecentDown | InputAction::RecentUp | InputAction::RecentConfirm
        | InputAction::DuplicateDown | InputAction::DuplicateUp | InputAction::DuplicateConfirm
        | InputAction::DuplicateDelete | InputAction::SortSelectDown | InputAction::SortSelectUp
        | InputAction::SortSelectConfirm | InputAction::SortSetAscending | InputAction::SortSetDescending => true,
        _ => false,
    }
}

fn is_pager(action: &InputAction) -> (b: bool)
    ensures
        b == is_pager_action(*action),
{
    match action {
        InputAction::PagerDown | InputAction::PagerUp | InputAction::PagerHalfDown | InputAction::PagerHalfUp
        | InputAction::PagerTop | InputAction::PagerBottom => true,
        _ => false,
    }
}

fn is_palette(action: &InputAction) -> (b: bool)
    ensures
        b == is_palette_action(*action),
{
    match action {
        InputAction::CommandPaletteChar(_) | InputAction::CommandPaletteBackspace | InputAction::CommandPaletteDown
        | InputAction::CommandPaletteUp | InputAction::CommandPaletteConfirm | InputAction::CommandPaletteCancel => true,
        _ => false,
    }
}

fn is_form(action: &InputAction) -> (b: bool)
    ensures
        b == is_form_action(*action),
{
    match action {
        InputAction::RemoteConnectChar(_) | InputAction::RemoteConnectBackspace | InputAction::RemoteConnectNextField
        | InputAction::RemoteConnectPrevField | InputAction::RemoteConnectCancel | InputAction::RemoteConnectConfirm => true,
        _ => false,
    }
}

fn is_terminal(action: &InputAction) -> (b: bool)
    ensures
        b == is_terminal_action(*action),
{
    match action {
        InputAction::TerminalToggle | InputAction::TerminalUnfocus | InputAction::TerminalInput(_) => true,
        _ => false,
    }
}

impl App {
    /// Whether the active directory differs from `prev_dir` (as paths).
    pub fn dir_changed(&self, prev_dir: &str) -> (b: bool)
        requires
            self.wf(),
        ensures
            b == !std_path_eq(self@.active_tab().panel@.panel.dir@, prev_dir@),
    {
        !path_eq(self.panel().current_dir(), prev_dir)
    }

    /// The line to type into the embedded terminal's shell so that it
    /// follows the active directory, when that changed from `prev_dir`,
    /// following is configured (`sync_cwd`), a terminal runs and is shown
    /// but does not have the keyboard.
    pub fn cwd_sync_command(&self, prev_dir: &str, sync_cwd: bool, has_terminal: bool) -> (r: Option<String>)
        requires
            self.wf(),
        ensures
            r is Some <==> (!std_path_eq(self@.active_tab().panel@.panel.dir@, prev_dir@) && sync_cwd && has_terminal
                && self@.terminal_visible && !(self@.mode is Terminal)),
            r matches Some(c) ==> c@ == "cd '"@ + self@.active_tab().panel@.panel.dir@ + "'\n"@,
    {
        let focused = match self.mode() {
            AppMode::Terminal => true,
            _ => false,
        };
        if !self.dir_changed(prev_dir) || !sync_cwd || !has_terminal || !self.terminal_visible() || focused {
            return None;
        }
        let m1 = concat("cd '", self.panel().current_dir());
        Some(concat(m1.as_str(), "'\n"))
    }
}

} // verus!

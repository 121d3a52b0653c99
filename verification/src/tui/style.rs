//! Styled text for the file list, the status bar and the preview: which
//! text is shown in which theme colors. Drawing it is left to the front end.

use vstd::prelude::*;
use crate::config::theme::{color_of_lower, hex_slices_ok, parse_color, try_parse_color, Theme, ThemeColor};
use crate::fs::entry::FileEntry;
use crate::git::branch::BranchInfo;
use crate::git::status::{get_status_for_path, status_lookup, GitFileStatus};
use crate::text::{concat, std_lowercase, to_lowercase, to_owned_string};
use crate::tui::statusbar::{format_size, size_text, StatusBarProps};
use crate::tui::state::number_text;
use crate::text::decimal;

verus! {

/// How a piece of text is drawn.
#[derive(Debug, Clone, Copy, PartialEq, Eq, Structural)]
pub struct TextStyle {
    /// Foreground color, if set.
    pub fg: Option<ThemeColor>,
    /// Background color, if set.
    pub bg: Option<ThemeColor>,
    pub bold: bool,
    pub italic: bool,
    pub underlined: bool,
}

/// The style that sets nothing.
pub open spec fn plain_style() -> TextStyle {
    TextStyle { fg: None, bg: None, bold: false, italic: false, underlined: false }
}

impl TextStyle {
    /// The style that sets nothing.
    pub fn plain() -> (s: Self)
        ensures
            s == plain_style(),
    {
        TextStyle { fg: None, bg: None, bold: false, italic: false, underlined: false }
    }
}

/// A piece of text and its style.
#[derive(Debug, Clone)]
pub struct StyledSpan {
    pub text: String,
    pub style: TextStyle,
}

/// A theme color text can be read without splitting a character.
pub open spec fn color_ok(s: Seq<char>) -> bool {
    hex_slices_ok(std_lowercase(s))
}

/// The color a theme color text names.
pub open spec fn theme_color(s: Seq<char>) -> ThemeColor {
    color_of_lower(std_lowercase(s))
}

/// The style of a file list entry: directories bold in the directory
/// color, symbolic links and hidden files in their colors, others plain.
pub open spec fn entry_style_of(is_dir: bool, is_symlink: bool, is_hidden: bool, theme: Theme) -> TextStyle {
    if is_dir {
        TextStyle { fg: Some(theme_color(theme.panel.dir_fg@)), bold: true, ..plain_style() }
    } else if is_symlink {
        TextStyle { fg: Some(theme_color(theme.panel.symlink_fg@)), ..plain_style() }
    } else if is_hidden {
        TextStyle { fg: Some(theme_color(theme.panel.hidden_fg@)), ..plain_style() }
    } else {
        plain_style()
    }
}

/// The style of a file list entry.
pub fn entry_style(entry: &FileEntry, theme: &Theme) -> (s: TextStyle)
    requires
        entry@.is_dir ==> color_ok(theme.panel.dir_fg@),
        !entry@.is_dir && entry@.is_symlink ==> color_ok(theme.panel.symlink_fg@),
        !entry@.is_dir && !entry@.is_symlink && entry@.is_hidden ==> color_ok(theme.panel.hidden_fg@),
    ensures
        s == entry_style_of(entry@.is_dir, entry@.is_symlink, entry@.is_hidden, *theme),
{
    if entry.is_dir() {
        TextStyle { fg: Some(parse_color(theme.panel.dir_fg.as_str())), bold: true, ..TextStyle::plain() }
    } else if entry.is_symlink() {
        TextStyle { fg: Some(parse_color(theme.panel.symlink_fg.as_str())), ..TextStyle::plain() }
    } else if entry.is_hidden() {
        TextStyle { fg: Some(parse_color(theme.panel.hidden_fg.as_str())), ..TextStyle::plain() }
    } else {
        TextStyle::plain()
    }
}

/// The marker of a git status: its letter and a space.
pub open spec fn status_marker(s: GitFileStatus) -> Seq<char> {
    match s {
        GitFileStatus::Modified => "M "@,
        GitFileStatus::Added => "A "@,
        GitFileStatus::Deleted => "D "@,
        GitFileStatus::Renamed => "R "@,
        GitFileStatus::Untracked => "? "@,
        GitFileStatus::Ignored => "! "@,
        GitFileStatus::Unchanged => "  "@,
    }
}

/// The theme color text of a git status (none for unchanged files).
pub open spec fn status_color_text(s: GitFileStatus, theme: Theme) -> Option<Seq<char>> {
    match s {
        GitFileStatus::Modified => Some(theme.git.modified_fg@),
        GitFileStatus::Added => Some(theme.git.added_fg@),
        GitFileStatus::Deleted => Some(theme.git.deleted_fg@),
        GitFileStatus::Renamed => Some(theme.git.renamed_fg@),
        GitFileStatus::Untracked => Some(theme.git.untracked_fg@),
        GitFileStatus::Ignored => Some(theme.git.ignored_fg@),
        GitFileStatus::Unchanged => None,
    }
}

/// All git status colors of the theme can be read.
pub open spec fn git_colors_ok(theme: Theme) -> bool {
    &&& color_ok(theme.git.modified_fg@)
    &&& color_ok(theme.git.added_fg@)
    &&& color_ok(theme.git.deleted_fg@)
    &&& color_ok(theme.git.renamed_fg@)
    &&& color_ok(theme.git.untracked_fg@)
    &&& color_ok(theme.git.ignored_fg@)
}

/// The git status marker of an entry: a blank without git information,
/// else the status letter and a space, in the status color (reset for
/// unchanged files).
pub open spec fn git_status_span_of(path: Seq<char>, statuses: Option<Seq<(String, GitFileStatus)>>, theme: Theme) -> (Seq<char>, TextStyle) {
    match statuses {
        None => (" "@, plain_style()),
        Some(v) => {
            let s = status_lookup(v, path);
            let fg = match status_color_text(s, theme) {
                Some(t) => theme_color(t),
                None => ThemeColor::Reset,
            };
            (status_marker(s), TextStyle { fg: Some(fg), ..plain_style() })
        },
    }
}

/// The git status marker shown before an entry of the file list.
pub fn git_status_span(entry: &FileEntry, git_statuses: Option<&Vec<(String, GitFileStatus)>>, theme: &Theme) -> (r: StyledSpan)
    requires
        git_statuses is Some ==> git_colors_ok(*theme),
    ensures
        (r.text@, r.style) == git_status_span_of(
            entry@.path,
            match git_statuses { Some(v) => Some(v@), None => None },
            *theme,
        ),
{
    let statuses = match git_statuses {
        Some(v) => v,
        None => {
            return StyledSpan { text: to_owned_string(" "), style: TextStyle::plain() };
        },
    };
    let status = get_status_for_path(statuses.as_slice(), entry.path());
    let (icon, fg) = match status {
        GitFileStatus::Modified => ("M ", parse_color(theme.git.modified_fg.as_str())),
        GitFileStatus::Added => ("A ", parse_color(theme.git.added_fg.as_str())),
        GitFileStatus::Deleted => ("D ", parse_color(theme.git.deleted_fg.as_str())),
        GitFileStatus::Renamed => ("R ", parse_color(theme.git.renamed_fg.as_str())),
        GitFileStatus::Untracked => ("? ", parse_color(theme.git.untracked_fg.as_str())),
        GitFileStatus::Ignored => ("! ", parse_color(theme.git.ignored_fg.as_str())),
        GitFileStatus::Unchanged => ("  ", ThemeColor::Reset),
    };
    StyledSpan { text: to_owned_string(icon), style: TextStyle { fg: Some(fg), ..TextStyle::plain() } }
}

/// The branch indicator of the status bar: nothing outside a repository,
/// else two spaces, the branch name, `*` when the tree is dirty and the
/// short commit in parentheses; in the clean or dirty branch color on the
/// bar's background.
pub open spec fn branch_span_of(info: Option<BranchInfo>, theme: Theme) -> (Seq<char>, TextStyle) {
    match info {
        None => (Seq::empty(), plain_style()),
        Some(i) => {
            let marker = if i.is_dirty { "*"@ } else { Seq::empty() };
            let suffix = match i.commit_short {
                Some(h) => " ("@ + h@ + ")"@,
                None => Seq::empty(),
            };
            let fg = if i.is_dirty {
                theme_color(theme.statusbar.branch_dirty_fg@)
            } else {
                theme_color(theme.statusbar.branch_clean_fg@)
            };
            (
                "  "@ + i.name@ + marker + suffix,
                TextStyle { fg: Some(fg), bg: Some(theme_color(theme.statusbar.bg@)), ..plain_style() },
            )
        },
    }
}

/// The branch indicator shown in the status bar.
pub fn branch_info_span(info: Option<&BranchInfo>, theme: &Theme) -> (r: StyledSpan)
    requires
        info is Some ==> color_ok(theme.statusbar.bg@),
        info matches Some(i) && i.is_dirty ==> color_ok(theme.statusbar.branch_dirty_fg@),
        info matches Some(i) && !i.is_dirty ==> color_ok(theme.statusbar.branch_clean_fg@),
    ensures
        (r.text@, r.style) == branch_span_of(match info { Some(i) => Some(*i), None => None }, *theme),
{
    let info = match info {
        Some(i) => i,
        None => {
            return StyledSpan { text: String::new(), style: TextStyle::plain() };
        },
    };
    let bg = parse_color(theme.statusbar.bg.as_str());
    let fg = if info.is_dirty {
        parse_color(theme.statusbar.branch_dirty_fg.as_str())
    } else {
        parse_color(theme.statusbar.branch_clean_fg.as_str())
    };
    let head = concat("  ", info.name.as_str());
    let marked = if info.is_dirty { concat(head.as_str(), "*") } else { head };
    let text = match &info.commit_short {
        Some(h) => {
            let a = concat(marked.as_str(), " (");
            let b = concat(a.as_str(), h.as_str());
            concat(b.as_str(), ")")
        },
        None => marked,
    };
    StyledSpan { text, style: TextStyle { fg: Some(fg), bg: Some(bg), ..TextStyle::plain() } }
}

/// Formats a byte count for the preview panel: `"512 B"`, `"1.5 KB"`, ...
pub fn format_preview_size(bytes: u64) -> (r: String)
    ensures
        r@ == size_text(bytes as nat),
{
    format_size(bytes)
}

/// The status bar colors that `props` needs can be read.
pub open spec fn statusbar_colors_ok(props: StatusBarProps, theme: Theme) -> bool {
    &&& color_ok(theme.statusbar.bg@)
    &&& color_ok(theme.statusbar.position_fg@)
    &&& color_ok(theme.statusbar.hidden_fg@)
    &&& color_ok(theme.statusbar.message_fg@)
    &&& (props.branch_info matches Some(i) && i.is_dirty ==> color_ok(theme.statusbar.branch_dirty_fg@))
    &&& ((props.branch_info matches Some(i) && !i.is_dirty) || props.remote_label is Some ==> color_ok(
        theme.statusbar.branch_clean_fg@,
    ))
}

/// The pieces of the status bar, left to right: the cursor position, the
/// selected entry, the hidden-files marker, the remote server, the branch
/// and the status message; each on the bar's background.
pub open spec fn statusbar_spans_of(props: StatusBarProps, theme: Theme) -> Seq<(Seq<char>, TextStyle)> {
    let bg = Some(theme_color(theme.statusbar.bg@));
    let pos_fg = Some(theme_color(theme.statusbar.position_fg@));
    let position = if props.entry_count > 0 {
        " "@ + decimal((props.selected_index + 1) as nat) + "/"@ + decimal(props.entry_count as nat)
    } else {
        " 0/0"@
    };
    let file_info = match props.selected_entry {
        Some(e) => if e@.is_dir {
            "  [DIR] "@ + e@.name
        } else {
            "  "@ + e@.name + " ("@ + size_text(e@.size as nat) + ")"@
        },
        None => Seq::empty(),
    };
    let hidden = if props.show_hidden { " [H]"@ } else { Seq::empty() };
    let remote = match props.remote_label {
        Some(l) => (
            "  [SSH: "@ + l@ + "]"@,
            TextStyle { fg: Some(theme_color(theme.statusbar.branch_clean_fg@)), bg, bold: true, ..plain_style() },
        ),
        None => (Seq::empty(), plain_style()),
    };
    let status = match props.status_message {
        Some(m) => (
            "  "@ + m@,
            TextStyle { fg: Some(theme_color(theme.statusbar.message_fg@)), bg, italic: true, ..plain_style() },
        ),
        None => (Seq::empty(), plain_style()),
    };
    seq![
        (position, TextStyle { fg: pos_fg, bg, bold: true, ..plain_style() }),
        (file_info, TextStyle { fg: pos_fg, bg, ..plain_style() }),
        (hidden, TextStyle { fg: Some(theme_color(theme.statusbar.hidden_fg@)), bg, bold: true, ..plain_style() }),
        remote,
        branch_span_of(match props.branch_info { Some(i) => Some(*i), None => None }, theme),
        status,
    ]
}

/// The views of styled spans.
pub open spec fn spans_view(v: Seq<StyledSpan>) -> Seq<(Seq<char>, TextStyle)> {
    v.map_values(|s: StyledSpan| (s.text@, s.style))
}

/// The pieces of the status bar (see [`statusbar_spans_of`]).
pub fn statusbar_line(props: &StatusBarProps, theme: &Theme) -> (r: Vec<StyledSpan>)
    requires
        statusbar_colors_ok(*props, *theme),
        props.entry_count > 0 ==> props.selected_index < usize::MAX,
    ensures
        spans_view(r@) == statusbar_spans_of(*props, *theme),
{
    let bg = Some(parse_color(theme.statusbar.bg.as_str()));
    let pos_fg = Some(parse_color(theme.statusbar.position_fg.as_str()));
    let hidden_fg = Some(parse_color(theme.statusbar.hidden_fg.as_str()));
    let message_fg = Some(parse_color(theme.statusbar.message_fg.as_str()));
    let position = if props.entry_count > 0 {
        let a = number_text(props.selected_index + 1);
        let b = number_text(props.entry_count);
        let p1 = concat(" ", a.as_str());
        let p2 = concat(p1.as_str(), "/");
        concat(p2.as_str(), b.as_str())
    } else {
        to_owned_string(" 0/0")
    };
    let file_info = match props.selected_entry {
        Some(e) => if e.is_dir() {
            concat("  [DIR] ", e.name())
        } else {
            let size = format_size(e.size());
            let f1 = concat("  ", e.name());
            let f2 = concat(f1.as_str(), " (");
            let f3 = concat(f2.as_str(), size.as_str());
            concat(f3.as_str(), ")")
        },
        None => String::new(),
    };
    let hidden = if props.show_hidden { to_owned_string(" [H]") } else { String::new() };
    let remote = match props.remote_label {
        Some(l) => {
            let r1 = concat("  [SSH: ", l);
            StyledSpan {
                text: concat(r1.as_str(), "]"),
                style: TextStyle {
                    fg: Some(parse_color(theme.statusbar.branch_clean_fg.as_str())),
                    bg,
                    bold: true,
                    ..TextStyle::plain()
                },
            }
        },
        None => StyledSpan { text: String::new(), style: TextStyle::plain() },
    };
    let status = match props.status_message {
        Some(m) => StyledSpan {
            text: concat("  ", m),
            style: TextStyle { fg: message_fg, bg, italic: true, ..TextStyle::plain() },
        },
        None => StyledSpan { text: String::new(), style: TextStyle::plain() },
    };
    let branch = branch_info_span(props.branch_info, theme);
    let r = vec![
        StyledSpan { text: position, style: TextStyle { fg: pos_fg, bg, bold: true, ..TextStyle::plain() } },
        StyledSpan { text: file_info, style: TextStyle { fg: pos_fg, bg, ..TextStyle::plain() } },
        StyledSpan { text: hidden, style: TextStyle { fg: hidden_fg, bg, bold: true, ..TextStyle::plain() } },
        remote,
        branch,
        status,
    ];
    proof {
        assert(spans_view(r@) =~= statusbar_spans_of(*props, *theme));
    }
    r
}

/// The window `(start, end)` of a list of `total` items that `max_visible`
/// lines show: everything when it fits, else the cursor kept in the middle
/// where the ends allow.
pub open spec fn window_of(selected: int, total: int, max_visible: int) -> (int, int) {
    if total <= max_visible {
        (0, total)
    } else {
        let half = max_visible / 2;
        let start = if selected <= half {
            0
        } else if selected + half >= total {
            total - max_visible
        } else {
            selected - half
        };
        (start, if start + max_visible <= total { start + max_visible } else { total })
    }
}

/// Computes the visible window `(start, end)` for a list of `total` items
/// so that `selected` is always in view within `max_visible` lines.
pub fn visible_window(selected: usize, total: usize, max_visible: usize) -> (r: (usize, usize))
    ensures
        (r.0 as int, r.1 as int) == window_of(selected as int, total as int, max_visible as int),
        r.0 <= r.1 <= total,
        r.1 - r.0 == if total <= max_visible { total } else { max_visible },
        selected < total && max_visible > 0 ==> r.0 <= selected < r.1,
{
    if total <= max_visible {
        return (0, total);
    }
    let half = max_visible / 2;
    let start = if selected <= half {
        0
    } else if selected >= total - half {
        total - max_visible
    } else {
        selected - half
    };
    let end = if start <= total - max_visible { start + max_visible } else { total };
    (start, end)
}

/// How long ago something happened, `elapsed` seconds back (`None` when it
/// lies in the future): seconds, minutes, hours or days.
pub open spec fn time_ago_text(elapsed: Option<u64>) -> Seq<char> {
    match elapsed {
        None => "just now"@,
        Some(secs) => if secs < 60 {
            decimal(secs as nat) + "s ago"@
        } else if secs / 60 < 60 {
            decimal((secs / 60) as nat) + "m ago"@
        } else if secs / 3600 < 24 {
            decimal((secs / 3600) as nat) + "h ago"@
        } else {
            decimal((secs / 86400) as nat) + "d ago"@
        },
    }
}

/// Formats how long ago something happened, given the seconds elapsed
/// since (the clock is read by the caller).
pub fn format_time_ago(elapsed: Option<u64>) -> (r: String)
    ensures
        r@ == time_ago_text(elapsed),
{
    let secs = match elapsed {
        Some(s) => s,
        None => {
            return to_owned_string("just now");
        },
    };
    let (n, unit) = if secs < 60 {
        (secs, "s ago")
    } else if secs / 60 < 60 {
        (secs / 60, "m ago")
    } else if secs / 60 / 60 < 24 {
        (secs / 60 / 60, "h ago")
    } else {
        (secs / 60 / 60 / 24, "d ago")
    };
    proof {
        assert(secs / 60 / 60 == secs / 3600) by (nonlinear_arith);
        assert(secs / 60 / 60 / 24 == secs / 86400) by (nonlinear_arith);
    }
    let digits = crate::text::u64_to_decimal(n);
    let d = crate::text::string_from_chars(digits.as_slice());
    concat(d.as_str(), unit)
}


/// Every color of the theme can be read (the syntax theme is a name, not a
/// color).
pub open spec fn theme_colors_ok(theme: Theme) -> bool {
    &&& color_ok(theme.panel.dir_fg@)
    &&& color_ok(theme.panel.symlink_fg@)
    &&& color_ok(theme.panel.hidden_fg@)
    &&& color_ok(theme.panel.selected_fg@)
    &&& color_ok(theme.statusbar.bg@)
    &&& color_ok(theme.statusbar.position_fg@)
    &&& color_ok(theme.statusbar.hidden_fg@)
    &&& color_ok(theme.statusbar.message_fg@)
    &&& color_ok(theme.statusbar.branch_clean_fg@)
    &&& color_ok(theme.statusbar.branch_dirty_fg@)
    &&& color_ok(theme.breadcrumb.bg@)
    &&& color_ok(theme.breadcrumb.home_fg@)
    &&& color_ok(theme.breadcrumb.separator_fg@)
    &&& color_ok(theme.breadcrumb.component_fg@)
    &&& color_ok(theme.preview.border_fg@)
    &&& color_ok(theme.preview.line_number_fg@)
    &&& color_ok(theme.preview.dir_title_fg@)
    &&& color_ok(theme.preview.error_fg@)
    &&& color_ok(theme.preview.truncation_fg@)
    &&& color_ok(theme.popup.border_fg@)
    &&& color_ok(theme.git.modified_fg@)
    &&& color_ok(theme.git.added_fg@)
    &&& color_ok(theme.git.deleted_fg@)
    &&& color_ok(theme.git.renamed_fg@)
    &&& color_ok(theme.git.untracked_fg@)
    &&& color_ok(theme.git.ignored_fg@)
    &&& color_ok(theme.terminal.border_fg@)
    &&& color_ok(theme.terminal.title_fg@)
}

/// Whether every color of the theme can be read; drawing with one that
/// cannot panics, as it always has.
pub fn check_theme_colors(theme: &Theme) -> (b: bool)
    ensures
        b == theme_colors_ok(*theme),
{
    try_parse_color(theme.panel.dir_fg.as_str()).is_some() &&
        try_parse_color(theme.panel.symlink_fg.as_str()).is_some() &&
        try_parse_color(theme.panel.hidden_fg.as_str()).is_some() &&
        try_parse_color(theme.panel.selected_fg.as_str()).is_some() &&
        try_parse_color(theme.statusbar.bg.as_str()).is_some() &&
        try_parse_color(theme.statusbar.position_fg.as_str()).is_some() &&
        try_parse_color(theme.statusbar.hidden_fg.as_str()).is_some() &&
        try_parse_color(theme.statusbar.message_fg.as_str()).is_some() &&
        try_parse_color(theme.statusbar.branch_clean_fg.as_str()).is_some() &&
        try_parse_color(theme.statusbar.branch_dirty_fg.as_str()).is_some() &&
        try_parse_color(theme.breadcrumb.bg.as_str()).is_some() &&
        try_parse_color(theme.breadcrumb.home_fg.as_str()).is_some() &&
        try_parse_color(theme.breadcrumb.separator_fg.as_str()).is_some() &&
        try_parse_color(theme.breadcrumb.component_fg.as_str()).is_some() &&
        try_parse_color(theme.preview.border_fg.as_str()).is_some() &&
        try_parse_color(theme.preview.line_number_fg.as_str()).is_some() &&
        try_parse_color(theme.preview.dir_title_fg.as_str()).is_some() &&
        try_parse_color(theme.preview.error_fg.as_str()).is_some() &&
        try_parse_color(theme.preview.truncation_fg.as_str()).is_some() &&
        try_parse_color(theme.popup.border_fg.as_str()).is_some() &&
        try_parse_color(theme.git.modified_fg.as_str()).is_some() &&
        try_parse_color(theme.git.added_fg.as_str()).is_some() &&
        try_parse_color(theme.git.deleted_fg.as_str()).is_some() &&
        try_parse_color(theme.git.renamed_fg.as_str()).is_some() &&
        try_parse_color(theme.git.untracked_fg.as_str()).is_some() &&
        try_parse_color(theme.git.ignored_fg.as_str()).is_some() &&
        try_parse_color(theme.terminal.border_fg.as_str()).is_some() &&
        try_parse_color(theme.terminal.title_fg.as_str()).is_some()
}

/// A theme whose colors can all be read meets what the drawing functions
/// ask of its colors.
pub proof fn lemma_theme_colors_ok(theme: Theme, props: StatusBarProps)
    requires
        theme_colors_ok(theme),
    ensures
        git_colors_ok(theme),
        statusbar_colors_ok(props, theme),
{
}

} // verus!

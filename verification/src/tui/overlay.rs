//! The text of the popups and overlays: help, confirmation, search
//! results, bookmarks, recent files, duplicates, the sort popup and the
//! pager header. Framing and drawing it is left to the front end.

use vstd::prelude::*;
use crate::fs::duplicates::{groups_view, total_waste, CachedDuplicateGroup, DuplicateCache, GroupView};
use crate::fs::entry::{FileEntry, FileEntryView};
use crate::nav::bookmarks::Bookmarks;
use crate::nav::filter::{FuzzyMatch, SortDirection, SortField};
use crate::text::{nfc_composed, nfc_string, path_file_name, path_strip_prefix, std_file_name, std_strip_prefix};
use crate::tui::statusbar::{format_size, size_text};
use crate::tui::style::{format_time_ago, time_ago_text};
use crate::text::{concat, decimal, to_owned_string};
use crate::tui::state::{number_text, sort_field_name, sort_field_text};
use crate::tui::style::{visible_window, window_of};

verus! {

/// The texts of `v`.
pub open spec fn texts(v: Seq<String>) -> Seq<Seq<char>> {
    v.map_values(|s: String| s@)
}

/// Appends `s` to `out`.
fn push_line(out: &mut Vec<String>, s: String)
    ensures
        texts(final(out)@) == texts(old(out)@).push(s@),
{
    let ghost before = out@;
    out.push(s);
    proof {
        assert(texts(out@) =~= texts(before).push(s@));
    }
}

/// The cursor marker of a list line.
pub open spec fn marker(selected: bool) -> Seq<char> {
    if selected {
        "> "@
    } else {
        "  "@
    }
}

/// The lines `start..end` of `items`, each after its cursor marker.
pub open spec fn marked(items: Seq<Seq<char>>, selected: int, start: int, end: int) -> Seq<Seq<char>> {
    Seq::new((end - start) as nat, |k: int| marker(start + k == selected) + items[start + k])
}

/// A list shown through a window of `max` lines around the cursor, with a
/// note of how many lines lie above and below it.
pub open spec fn window_lines(items: Seq<Seq<char>>, selected: int, max: int) -> Seq<Seq<char>> {
    let w = window_of(selected, items.len() as int, max);
    let above = if w.0 > 0 {
        seq!["  ... "@ + decimal(w.0 as nat) + " more above"@]
    } else {
        Seq::empty()
    };
    let below = if w.1 < items.len() {
        seq!["  ... "@ + decimal((items.len() - w.1) as nat) + " more below"@]
    } else {
        Seq::empty()
    };
    above + marked(items, selected, w.0, w.1) + below
}

/// Appends the lines of `items` that a window of `max_visible` lines
/// around `selected` shows (see [`window_lines`]).
pub fn push_window(out: &mut Vec<String>, items: &[String], selected: usize, max_visible: usize)
    ensures
        texts(final(out)@) == texts(old(out)@) + window_lines(texts(items@), selected as int, max_visible as int),
{
    let ghost iv = texts(items@);
    let ghost before = texts(out@);
    let (start, end) = visible_window(selected, items.len(), max_visible);
    let ghost above = if start > 0 {
        seq!["  ... "@ + decimal(start as nat) + " more above"@]
    } else {
        Seq::empty()
    };
    if start > 0 {
        let n = number_text(start);
        let a = concat("  ... ", n.as_str());
        push_line(out, concat(a.as_str(), " more above"));
    }
    proof {
        assert(texts(out@) =~= before + above);
    }
    let mut i = start;
    while i < end
        invariant
            start <= i <= end <= items@.len(),
            iv == texts(items@),
            texts(out@) == before + above + marked(iv, selected as int, start as int, i as int),
        decreases end - i,
    {
        let m = if i == selected { "> " } else { "  " };
        let ghost prev = texts(out@);
        push_line(out, concat(m, items[i].as_str()));
        proof {
            assert(marked(iv, selected as int, start as int, i + 1) =~= marked(
                iv,
                selected as int,
                start as int,
                i as int,
            ).push(marker(i == selected) + iv[i as int]));
        }
        i = i + 1;
    }
    let ghost mid = texts(out@);
    if end < items.len() {
        let n = number_text(items.len() - end);
        let a = concat("  ... ", n.as_str());
        push_line(out, concat(a.as_str(), " more below"));
    }
    proof {
        assert(texts(out@) =~= before + window_lines(iv, selected as int, max_visible as int));
    }
}

/// The lines of the help popup.
pub open spec fn help_text() -> Seq<Seq<char>> {
    seq![
        "j/k      - Move down/up"@,
        "h/l      - Parent/Enter directory"@,
        "gg/G     - Jump to top/bottom"@,
        "Enter    - Open directory/file"@,
        "~        - Go to home directory"@,
        ".        - Toggle hidden files"@,
        "/        - Fuzzy search"@,
        "s        - Sort (select field + direction)"@,
        "p        - Full-screen preview (pager)"@,
        "e        - Edit in $EDITOR"@,
        "r        - Rename"@,
        "d        - Delete"@,
        "R        - Recently changed files"@,
        "D        - Find duplicate files"@,
        "b        - Add bookmark"@,
        "'        - Open bookmarks"@,
        ":        - Command palette"@,
        "C        - Remote connect/disconnect"@,
        "Ctrl+t   - Toggle terminal"@,
        "Tab      - Toggle dual panel mode"@,
        "1/2      - Focus left/right panel (dual)"@,
        "t        - New tab"@,
        "w        - Close tab"@,
        "]/[      - Next/previous tab"@,
        "Alt+1~9  - Select tab directly"@,
        "q        - Quit"@,
        "?        - This help"@,
        ""@,
        "Press Esc or ? to close"@,
    ]
}

/// Appends each of `lines` to `out`.
fn push_all(out: &mut Vec<String>, lines: &[&str])
    ensures
        texts(final(out)@) == texts(old(out)@) + lines@.map_values(|s: &str| s@),
{
    let ghost before = texts(out@);
    for i in 0..lines.len()
        invariant
            texts(out@) == before + lines@.take(i as int).map_values(|s: &str| s@),
    {
        push_line(out, to_owned_string(lines[i]));
        proof {
            assert(lines@.take(i + 1).map_values(|s: &str| s@) =~= lines@.take(i as int).map_values(|s: &str| s@).push(
                lines@[i as int]@,
            ));
        }
    }
    proof {
        assert(lines@.take(lines@.len() as int) =~= lines@);
    }
}

/// The lines of the help popup.
pub fn help_lines() -> (r: Vec<String>)
    ensures
        texts(r@) == help_text(),
{
    let lines: [&str; 29] = [
        "j/k      - Move down/up",
        "h/l      - Parent/Enter directory",
        "gg/G     - Jump to top/bottom",
        "Enter    - Open directory/file",
        "~        - Go to home directory",
        ".        - Toggle hidden files",
        "/        - Fuzzy search",
        "s        - Sort (select field + direction)",
        "p        - Full-screen preview (pager)",
        "e        - Edit in $EDITOR",
        "r        - Rename",
        "d        - Delete",
        "R        - Recently changed files",
        "D        - Find duplicate files",
        "b        - Add bookmark",
        "'        - Open bookmarks",
        ":        - Command palette",
        "C        - Remote connect/disconnect",
        "Ctrl+t   - Toggle terminal",
        "Tab      - Toggle dual panel mode",
        "1/2      - Focus left/right panel (dual)",
        "t        - New tab",
        "w        - Close tab",
        "]/[      - Next/previous tab",
        "Alt+1~9  - Select tab directly",
        "q        - Quit",
        "?        - This help",
        "",
        "Press Esc or ? to close",
    ];
    let mut out: Vec<String> = Vec::new();
    push_all(&mut out, &lines);
    proof {
        assert(lines@.map_values(|s: &str| s@) =~= help_text());
        assert(texts(Seq::<String>::empty()) =~= Seq::<Seq<char>>::empty());
    }
    out
}

/// The lines of the confirmation popup.
pub fn confirm_lines() -> (r: Vec<String>)
    ensures
        texts(r@) == seq!["Are you sure?"@, ""@, "y - Yes, proceed"@, "n - No, cancel"@],
{
    let lines: [&str; 4] = ["Are you sure?", "", "y - Yes, proceed", "n - No, cancel"];
    let mut out: Vec<String> = Vec::new();
    push_all(&mut out, &lines);
    proof {
        assert(texts(Seq::<String>::empty()) =~= Seq::<Seq<char>>::empty());
        assert(lines@.map_values(|s: &str| s@) =~= seq!["Are you sure?"@, ""@, "y - Yes, proceed"@, "n - No, cancel"@]);
    }
    out
}

/// The lines of a popup that edits `text`, shown after `label` with a
/// cursor, above a blank line and the `hint`.
pub open spec fn input_popup_text(label: Seq<char>, text: Seq<char>, hint: Seq<char>) -> Seq<Seq<char>> {
    seq![label + text + "_"@, ""@, hint]
}

fn input_popup(label: &str, text: &str, hint: &str) -> (r: Vec<String>)
    ensures
        texts(r@) == input_popup_text(label@, text@, hint@),
{
    let mut out: Vec<String> = Vec::new();
    proof {
        reveal_strlit("");
        assert(texts(out@) =~= Seq::<Seq<char>>::empty());
    }
    let a = concat(label, text);
    push_line(&mut out, concat(a.as_str(), "_"));
    let ghost t1 = texts(out@);
    push_line(&mut out, String::new());
    let ghost t2 = texts(out@);
    push_line(&mut out, to_owned_string(hint));
    proof {
        assert(t1 =~= seq![label@ + text@ + "_"@]);
        assert(""@ =~= Seq::<char>::empty());
        assert(t2 =~= seq![label@ + text@ + "_"@, ""@]);
        assert(texts(out@) =~= input_popup_text(label@, text@, hint@));
    }
    out
}

/// The lines of the rename popup.
pub fn rename_lines(name: &str) -> (r: Vec<String>)
    ensures
        texts(r@) == input_popup_text("New name: "@, name@, "Enter to confirm, Esc to cancel"@),
{
    input_popup("New name: ", name, "Enter to confirm, Esc to cancel")
}

/// The lines of the popup that names a new bookmark.
pub fn bookmark_add_lines(label: &str) -> (r: Vec<String>)
    ensures
        texts(r@) == input_popup_text("Label: "@, label@, "Enter to save, Esc to cancel"@),
{
    input_popup("Label: ", label, "Enter to save, Esc to cancel")
}

/// The lines of the search overlay: the query with a cursor, the count of
/// matches among the `total` entries, the matching names around the
/// cursor, and a note when a query matches nothing.
pub open spec fn search_text(query: Seq<char>, names: Seq<Seq<char>>, selected: int, total: int) -> Seq<Seq<char>> {
    let head = seq!["/"@ + query + "_"@, decimal(names.len()) + "/"@ + decimal(total as nat) + " matches"@, ""@];
    let tail = if names.len() == 0 && query.len() > 0 { seq!["  No matches found"@] } else { Seq::empty() };
    head + window_lines(names, selected, 15) + tail
}

/// The names of the entries of search results.
pub open spec fn result_names(results: Seq<FuzzyMatch>) -> Seq<Seq<char>> {
    results.map_values(|m: FuzzyMatch| m@.entry.name)
}

/// The lines of the search overlay.
pub fn search_overlay_lines(query: &str, results: &[FuzzyMatch], selected: usize, total: usize) -> (r: Vec<String>)
    ensures
        texts(r@) == search_text(query@, result_names(results@), selected as int, total as int),
{
    let mut names: Vec<String> = Vec::new();
    for i in 0..results.len()
        invariant
            texts(names@) == result_names(results@.take(i as int)),
    {
        let ghost before = names@;
        names.push(to_owned_string(results[i].entry().name()));
        proof {
            assert(texts(names@) =~= texts(before).push(results@[i as int]@.entry.name));
            assert(result_names(results@.take(i + 1)) =~= result_names(results@.take(i as int)).push(
                results@[i as int]@.entry.name,
            ));
        }
    }
    proof {
        assert(results@.take(results@.len() as int) =~= results@);
    }
    let mut out: Vec<String> = Vec::new();
    proof {
        reveal_strlit("");
        assert(""@ =~= Seq::<char>::empty());
        assert(texts(out@) =~= Seq::<Seq<char>>::empty());
    }
    let q1 = concat("/", query);
    push_line(&mut out, concat(q1.as_str(), "_"));
    let c = number_text(results.len());
    let t = number_text(total);
    let m1 = concat(c.as_str(), "/");
    let m2 = concat(m1.as_str(), t.as_str());
    push_line(&mut out, concat(m2.as_str(), " matches"));
    push_line(&mut out, String::new());
    let ghost head = texts(out@);
    push_window(&mut out, names.as_slice(), selected, 15);
    if results.len() == 0 && crate::text::chars_of(query).len() > 0 {
        push_line(&mut out, to_owned_string("  No matches found"));
    }
    proof {
        assert(names@.len() == results@.len());
        assert(texts(Seq::<String>::empty()) =~= Seq::<Seq<char>>::empty());
        assert(texts(out@) =~= search_text(query@, result_names(results@), selected as int, total as int));
    }
    out
}

/// The arrow of a sort direction.
pub open spec fn direction_arrow(d: SortDirection) -> Seq<char> {
    match d {
        SortDirection::Ascending => "\u{2191}"@,
        SortDirection::Descending => "\u{2193}"@,
    }
}

/// The sort field on line `i` of the sort popup.
pub open spec fn popup_field(i: int) -> SortField {
    if i == 0 {
        SortField::Name
    } else if i == 1 {
        SortField::Size
    } else if i == 2 {
        SortField::Date
    } else {
        SortField::Type
    }
}

/// The lines of the sort popup: the four fields, the cursor on
/// `selected`, the current field marked with the direction's arrow.
pub open spec fn sort_popup_text(selected: int, field: SortField, direction: SortDirection) -> Seq<Seq<char>> {
    Seq::new(4, |i: int| sort_line(i, selected, field, direction)) + seq![
        ""@,
        "Enter: select | a: asc | d: desc | Esc: cancel"@,
    ]
}

/// Line `i` of the sort popup.
pub open spec fn sort_line(i: int, selected: int, field: SortField, direction: SortDirection) -> Seq<char> {
    marker(i == selected) + sort_field_name(popup_field(i)) + if popup_field(i) == field {
        "  "@ + direction_arrow(direction)
    } else {
        Seq::empty()
    }
}

/// The lines of the sort popup.
pub fn sort_popup_lines(selected: usize, field: SortField, direction: SortDirection) -> (r: Vec<String>)
    ensures
        texts(r@) == sort_popup_text(selected as int, field, direction),
{
    let arrow = match direction {
        SortDirection::Ascending => "\u{2191}",
        SortDirection::Descending => "\u{2193}",
    };
    let fields: [SortField; 4] = [SortField::Name, SortField::Size, SortField::Date, SortField::Type];
    let mut out: Vec<String> = Vec::new();
    let ghost full = sort_popup_text(selected as int, field, direction);
    proof {
        assert(texts(out@) =~= full.take(0));
    }
    for i in 0..4usize
        invariant
            full == sort_popup_text(selected as int, field, direction),
            fields@ == seq![SortField::Name, SortField::Size, SortField::Date, SortField::Type],
            arrow@ == direction_arrow(direction),
            texts(out@) == sort_popup_text(selected as int, field, direction).take(i as int),
    {
        let f = fields[i];
        let m = if i == selected { "> " } else { "  " };
        let name = sort_field_text(f);
        let a = concat(m, name.as_str());
        let same = match (f, field) {
            (SortField::Name, SortField::Name) | (SortField::Size, SortField::Size) | (SortField::Date, SortField::Date)
            | (SortField::Type, SortField::Type) => true,
            _ => false,
        };
        let line = if same {
            let b = concat(a.as_str(), "  ");
            concat(b.as_str(), arrow)
        } else {
            a
        };
        let ghost before = texts(out@);
        push_line(&mut out, line);
        proof {
            assert(f == popup_field(i as int));
            assert(line@ == sort_line(i as int, selected as int, field, direction));
            assert(full[i as int] == sort_line(i as int, selected as int, field, direction));
            assert(full.take(i + 1) =~= full.take(i as int).push(line@));
        }
    }
    push_line(&mut out, String::new());
    push_line(&mut out, to_owned_string("Enter: select | a: asc | d: desc | Esc: cancel"));
    proof {
        reveal_strlit("");
        assert(""@ =~= Seq::<char>::empty());
        assert(texts(out@) =~= sort_popup_text(selected as int, field, direction));
    }
    out
}

/// Seconds from `m` to `now` (nanoseconds since the epoch), capped at
/// `u64::MAX`; `None` when `m` lies after `now`.
pub open spec fn elapsed_secs(now: i128, m: i128) -> Option<u64> {
    if now < m {
        None
    } else {
        let d = (now - m) / 1_000_000_000;
        Some(if d > u64::MAX { u64::MAX } else { d as u64 })
    }
}

fn elapsed(now: i128, m: i128) -> (r: Option<u64>)
    ensures
        r == elapsed_secs(now, m),
{
    if now < m {
        return None;
    }
    if m < 0 && now > i128::MAX + m {
        proof {
            assert((now - m) / 1_000_000_000 > u64::MAX) by (nonlinear_arith)
                requires
                    now - m > i128::MAX,
            ;
        }
        return Some(u64::MAX);
    }
    let d = (now - m) / 1_000_000_000;
    if d > u64::MAX as i128 {
        Some(u64::MAX)
    } else {
        Some(d as u64)
    }
}

/// How a recently changed file is listed: its path relative to `base`
/// (or whole), and how long ago it changed.
pub open spec fn recent_item(e: FileEntryView, base: Seq<char>, now: i128) -> Seq<char> {
    let rel = match std_strip_prefix(e.path, base) {
        Some(r) => r,
        None => e.path,
    };
    let when = match e.modified {
        Some(m) => time_ago_text(elapsed_secs(now, m)),
        None => "unknown"@,
    };
    rel + "  "@ + when
}

/// The lines of the recent files overlay; `now` is the time (nanoseconds
/// since the epoch) the ages are measured from.
pub open spec fn recent_text(results: Seq<FileEntry>, selected: int, base: Seq<char>, now: i128) -> Seq<Seq<char>> {
    let items = results.map_values(|e: FileEntry| recent_item(e@, base, now));
    let tail = if results.len() == 0 { seq!["  No recently changed files found"@] } else { Seq::empty() };
    seq![decimal(results.len()) + " file(s) found"@, ""@] + window_lines(items, selected, 15) + tail + seq![
        ""@,
        "Enter: jump | j/k: navigate | Esc: close"@,
    ]
}

/// The lines of the recent files overlay.
pub fn recent_overlay_lines(results: &[FileEntry], selected: usize, base_dir: &str, now: i128) -> (r: Vec<String>)
    ensures
        texts(r@) == recent_text(results@, selected as int, base_dir@, now),
{
    let ghost iv = results@.map_values(|e: FileEntry| recent_item(e@, base_dir@, now));
    let mut items: Vec<String> = Vec::new();
    for i in 0..results.len()
        invariant
            iv == results@.map_values(|e: FileEntry| recent_item(e@, base_dir@, now)),
            texts(items@) == iv.take(i as int),
    {
        let e = &results[i];
        let rel = match path_strip_prefix(e.path(), base_dir) {
            Some(r) => r,
            None => to_owned_string(e.path()),
        };
        let when = match e.modified() {
            Some(m) => format_time_ago(elapsed(now, m)),
            None => to_owned_string("unknown"),
        };
        let a = concat(rel.as_str(), "  ");
        let line = concat(a.as_str(), when.as_str());
        let ghost before = items@;
        items.push(line);
        proof {
            assert(texts(items@) =~= texts(before).push(line@));
            assert(iv.take(i + 1) =~= iv.take(i as int).push(iv[i as int]));
        }
    }
    proof {
        assert(iv.take(iv.len() as int) =~= iv);
    }
    let mut out: Vec<String> = Vec::new();
    proof {
        reveal_strlit("");
        assert(""@ =~= Seq::<char>::empty());
        assert(texts(out@) =~= Seq::<Seq<char>>::empty());
    }
    let n = number_text(results.len());
    push_line(&mut out, concat(n.as_str(), " file(s) found"));
    push_line(&mut out, String::new());
    push_window(&mut out, items.as_slice(), selected, 15);
    if results.len() == 0 {
        push_line(&mut out, to_owned_string("  No recently changed files found"));
    }
    push_line(&mut out, String::new());
    push_line(&mut out, to_owned_string("Enter: jump | j/k: navigate | Esc: close"));
    proof {
        assert(texts(out@) =~= recent_text(results@, selected as int, base_dir@, now));
    }
    out
}

/// The lines of the bookmark list popup.
pub open spec fn bookmark_list_text(b: Bookmarks, selected: int) -> Seq<Seq<char>> {
    let labels = b.label_list();
    if labels.len() == 0 {
        seq!["No bookmarks yet"@, ""@, "Press 'b' in normal mode to add one"@, "Press Esc to close"@]
    } else {
        Seq::new(labels.len(), |i: int| marker(i == selected) + labels[i] + "  "@ + nfc_composed(b@[labels[i]]))
            + seq![""@, "Enter: jump | d: delete | Esc: close"@]
    }
}

/// The lines of the bookmark list popup.
pub fn bookmark_list_lines(bookmarks: &Bookmarks, selected: usize) -> (r: Vec<String>)
    requires
        bookmarks.wf(),
    ensures
        texts(r@) == bookmark_list_text(*bookmarks, selected as int),
{
    let entries = bookmarks.iter();
    proof {
        bookmarks.lemma_label_list();
        reveal_strlit("");
        assert(""@ =~= Seq::<char>::empty());
    }
    let mut out: Vec<String> = Vec::new();
    proof {
        assert(texts(out@) =~= Seq::<Seq<char>>::empty());
    }
    if entries.len() == 0 {
        push_line(&mut out, to_owned_string("No bookmarks yet"));
        push_line(&mut out, String::new());
        push_line(&mut out, to_owned_string("Press 'b' in normal mode to add one"));
        push_line(&mut out, to_owned_string("Press Esc to close"));
        proof {
            assert(texts(out@) =~= bookmark_list_text(*bookmarks, selected as int));
        }
        return out;
    }
    let ghost labels = bookmarks.label_list();
    for i in 0..entries.len()
        invariant
            labels == bookmarks.label_list(),
            labels == crate::nav::bookmarks::labels_of(entries@),
            forall|k: int| 0 <= k < entries@.len() ==> (#[trigger] entries@[k]).1@ == bookmarks@[entries@[k].0@],
            texts(out@) == Seq::new(i as nat, |k: int| marker(k == selected) + labels[k] + "  "@ + nfc_composed(bookmarks@[labels[k]])),
    {
        let m = if i == selected { "> " } else { "  " };
        let p = nfc_string(entries[i].1.as_str());
        let a = concat(m, entries[i].0.as_str());
        let b = concat(a.as_str(), "  ");
        let ghost before = texts(out@);
        push_line(&mut out, concat(b.as_str(), p.as_str()));
        proof {
            assert(labels[i as int] == entries@[i as int].0@);
            assert(texts(out@) =~= Seq::new((i + 1) as nat, |k: int| marker(k == selected) + labels[k] + "  "@ + nfc_composed(bookmarks@[labels[k]])));
        }
    }
    push_line(&mut out, String::new());
    push_line(&mut out, to_owned_string("Enter: jump | d: delete | Esc: close"));
    proof {
        assert(texts(out@) =~= bookmark_list_text(*bookmarks, selected as int));
    }
    out
}

/// The text of the pager's header line.
pub open spec fn pager_header_text(file: Option<Seq<char>>, scroll: int, total: int) -> Seq<char> {
    let name = match file {
        Some(p) => match std_file_name(p) {
            Some(n) => nfc_composed(n),
            None => "unknown"@,
        },
        None => "unknown"@,
    };
    " "@ + name + " \u{2014} line "@ + decimal((scroll + 1) as nat) + "/"@ + decimal(total as nat)
        + "  (q: close, j/k: scroll, d/u: half page, gg/G: top/bottom)"@
}

/// The pager's header line for the file `file`, scrolled to `scroll` of
/// `total` lines.
pub fn pager_header(file: Option<&str>, scroll: usize, total: usize) -> (r: String)
    requires
        scroll < usize::MAX,
    ensures
        r@ == pager_header_text(match file { Some(f) => Some(f@), None => None }, scroll as int, total as int),
{
    let name = match file {
        Some(p) => match path_file_name(p) {
            Some(n) => nfc_string(n.as_str()),
            None => to_owned_string("unknown"),
        },
        None => to_owned_string("unknown"),
    };
    let line = number_text(scroll + 1);
    let count = number_text(total);
    let a = concat(" ", name.as_str());
    let b = concat(a.as_str(), " \u{2014} line ");
    let c = concat(b.as_str(), line.as_str());
    let d = concat(c.as_str(), "/");
    let e = concat(d.as_str(), count.as_str());
    concat(e.as_str(), "  (q: close, j/k: scroll, d/u: half page, gg/G: top/bottom)")
}

/// `s` right-aligned in `width` columns (padded with spaces on the left).
pub open spec fn pad_left(s: Seq<char>, width: int) -> Seq<char> {
    if s.len() >= width {
        s
    } else {
        Seq::new((width - s.len()) as nat, |i: int| ' ') + s
    }
}

/// The line number shown before line `n` of a text of `total` lines:
/// right-aligned to the width of `total` (at least three columns), then a
/// space.
pub open spec fn line_number_text(n: nat, total: nat) -> Seq<char> {
    let w = if decimal(total).len() > 3 { decimal(total).len() as int } else { 3 };
    pad_left(decimal(n), w) + " "@
}

/// The line number shown before line `n` of a text of `total` lines.
pub fn line_number(n: usize, total: usize) -> (r: String)
    ensures
        r@ == line_number_text(n as nat, total as nat),
{
    let digits = crate::text::u64_to_decimal(n as u64);
    let tdigits = crate::text::u64_to_decimal(total as u64);
    let w = if tdigits.len() > 3 { tdigits.len() } else { 3 };
    let mut out: Vec<char> = Vec::new();
    if digits.len() < w {
        let pad = w - digits.len();
        for i in 0..pad
            invariant
                out@ == Seq::new(i as nat, |k: int| ' '),
        {
            out.push(' ');
            proof {
                assert(out@ =~= Seq::new((i + 1) as nat, |k: int| ' '));
            }
        }
    }
    let ghost before = out@;
    for i in 0..digits.len()
        invariant
            out@ == before + digits@.take(i as int),
    {
        out.push(digits[i]);
        proof {
            assert(digits@.take(i + 1) =~= digits@.take(i as int).push(digits@[i as int]));
        }
    }
    out.push(' ');
    proof {
        assert(digits@.take(digits@.len() as int) =~= digits@);
        reveal_strlit(" ");
        assert(out@ =~= line_number_text(n as nat, total as nat));
    }
    crate::text::string_from_chars(out.as_slice())
}

/// The header above the files of a duplicate group.
pub open spec fn group_header_text(g: GroupView) -> Seq<char> {
    "\u{2500}\u{2500} "@ + size_text(g.size as nat) + " ("@ + decimal(g.files.len()) + " files) \u{2500}\u{2500}"@
}

/// How a duplicate file's path is shown: below the home directory `home`
/// (when it is known) as `~/...`, otherwise whole.
pub open spec fn dup_display(path: Seq<char>, home: Seq<char>) -> Seq<char> {
    if home.len() > 0 {
        match std_strip_prefix(path, home) {
            Some(r) => "~/"@ + r,
            None => path,
        }
    } else {
        path
    }
}

/// The files of all groups one after the other: whether each opens its
/// group, the group's header, and how the file is shown.
pub open spec fn dup_flat(groups: Seq<GroupView>, home: Seq<char>) -> Seq<(bool, Seq<char>, Seq<char>)>
    decreases groups.len(),
{
    if groups.len() == 0 {
        Seq::empty()
    } else {
        let g = groups.last();
        dup_flat(groups.drop_last(), home) + Seq::new(
            g.files.len(),
            |k: int| (k == 0, group_header_text(g), dup_display(g.files[k].path, home)),
        )
    }
}

/// The lines of the flat files `start..end`: a group's header before its
/// first file, each file after its cursor marker.
pub open spec fn dup_rows(flat: Seq<(bool, Seq<char>, Seq<char>)>, selected: int, start: int, end: int) -> Seq<Seq<char>>
    decreases end - start,
{
    if end <= start {
        Seq::empty()
    } else {
        let e = flat[end - 1];
        dup_rows(flat, selected, start, end - 1) + (if e.0 { seq![e.1] } else { Seq::empty() }) + seq![
            marker(end - 1 == selected) + e.2,
        ]
    }
}

/// The lines of the duplicate files overlay.
pub open spec fn duplicate_text(
    groups: Seq<GroupView>,
    selected: int,
    home: Seq<char>,
    scanning: bool,
    scanned_at: Option<Seq<char>>,
) -> Seq<Seq<char>> {
    let flat = dup_flat(groups, home);
    let total = flat.len() as int;
    let info = if scanning {
        " (Scanning...)"@
    } else {
        match scanned_at {
            Some(ts) => " (Last: "@ + ts + ")"@,
            None => Seq::empty(),
        }
    };
    let header = decimal(groups.len()) + " group(s), "@ + decimal(total as nat) + " total files, "@ + size_text(
        total_waste(groups),
    ) + " wasted"@ + info;
    let w = window_of(selected, total, 15);
    let above = if w.0 > 0 {
        seq!["  ... "@ + decimal(w.0 as nat) + " more above"@]
    } else {
        Seq::empty()
    };
    let below = if w.1 < total {
        seq!["  ... "@ + decimal((total - w.1) as nat) + " more below"@]
    } else {
        Seq::empty()
    };
    let empty_note = if groups.len() == 0 { seq!["  No duplicate files found"@] } else { Seq::empty() };
    seq![header, ""@] + above + dup_rows(flat, selected, w.0, w.1) + below + empty_note + seq![
        ""@,
        "Enter: jump | d: delete | j/k: navigate | Esc: close"@,
    ]
}


/// The flat file list of the duplicate overlay (see [`dup_flat`]).
fn flat_files(groups: &Vec<CachedDuplicateGroup>, home: &str) -> (flat: Vec<(bool, String, String)>)
    ensures
        flat@.map_values(|e: (bool, String, String)| (e.0, e.1@, e.2@)) == dup_flat(groups_view(groups@), home@),
{
    let ghost gv = groups_view(groups@);
    let has_home = crate::text::chars_of(home).len() > 0;
    let mut flat: Vec<(bool, String, String)> = Vec::new();
    for gi in 0..groups.len()
        invariant
            gv == groups_view(groups@),
            has_home == (home@.len() > 0),
            flat@.map_values(|e: (bool, String, String)| (e.0, e.1@, e.2@)) == dup_flat(gv.take(gi as int), home@),
    {
        proof {
            assert(gv.take(gi + 1).drop_last() =~= gv.take(gi as int));
            assert(gv.take(gi + 1).last() == groups@[gi as int]@);
        }
        push_group_files(&mut flat, &groups[gi], home, has_home);
    }
    proof {
        assert(gv.take(gv.len() as int) =~= gv);
    }
    flat
}

/// Appends the files of group `g` to the flat file list.
fn push_group_files(flat: &mut Vec<(bool, String, String)>, g: &CachedDuplicateGroup, home: &str, has_home: bool)
    requires
        has_home == (home@.len() > 0),
    ensures
        final(flat)@.map_values(|e: (bool, String, String)| (e.0, e.1@, e.2@)) == old(flat)@.map_values(
            |e: (bool, String, String)| (e.0, e.1@, e.2@),
        ) + Seq::new(g@.files.len(), |k: int| (k == 0, group_header_text(g@), dup_display(g@.files[k].path, home@))),
{
    let n = g.files.len();
    let size = format_size(g.size);
    let count = number_text(n);
    let h1 = concat("\u{2500}\u{2500} ", size.as_str());
    let h2 = concat(h1.as_str(), " (");
    let h3 = concat(h2.as_str(), count.as_str());
    let header = concat(h3.as_str(), " files) \u{2500}\u{2500}");
    let ghost before = flat@.map_values(|e: (bool, String, String)| (e.0, e.1@, e.2@));
    for fi in 0..n
        invariant
            n == g.files@.len(),
            has_home == (home@.len() > 0),
            header@ == group_header_text(g@),
            flat@.map_values(|e: (bool, String, String)| (e.0, e.1@, e.2@)) == before + Seq::new(
                fi as nat,
                |k: int| (k == 0, group_header_text(g@), dup_display(g@.files[k].path, home@)),
            ),
    {
        let path = g.files[fi].path.as_str();
        let display = if has_home {
            match path_strip_prefix(path, home) {
                Some(rel) => concat("~/", rel.as_str()),
                None => to_owned_string(path),
            }
        } else {
            to_owned_string(path)
        };
        let ghost prev = flat@.map_values(|e: (bool, String, String)| (e.0, e.1@, e.2@));
        flat.push((fi == 0, header.clone(), display));
        proof {
            assert(g@.files[fi as int] == g.files@[fi as int]@);
            assert(flat@.map_values(|e: (bool, String, String)| (e.0, e.1@, e.2@)) =~= prev.push(
                (fi == 0, header@, display@),
            ));
            assert(flat@.map_values(|e: (bool, String, String)| (e.0, e.1@, e.2@)) =~= before + Seq::new(
                (fi + 1) as nat,
                |k: int| (k == 0, group_header_text(g@), dup_display(g@.files[k].path, home@)),
            ));
        }
    }
}

/// The lines of the duplicate files overlay: totals (and the scan state),
/// the files around the cursor under their group headers, and the keys.
pub fn duplicate_overlay_lines(cache: &DuplicateCache, selected: usize, home: &str, scanning: bool) -> (r: Vec<
    String,
>)
    requires
        total_waste(groups_view(cache.groups@)) <= u64::MAX,
    ensures
        texts(r@) == duplicate_text(
            groups_view(cache.groups@),
            selected as int,
            home@,
            scanning,
            match cache.scanned_at { Some(t) => Some(t@), None => None },
        ),
{
    let groups = &cache.groups;
    let ghost gv = groups_view(groups@);
    let flat = flat_files(groups, home);
    let wasted = cache.total_wasted();
    let ghost fv = flat@.map_values(|e: (bool, String, String)| (e.0, e.1@, e.2@));
    let total = flat.len();
    let mut out: Vec<String> = Vec::new();
    proof {
        reveal_strlit("");
        assert(""@ =~= Seq::<char>::empty());
        assert(texts(out@) =~= Seq::<Seq<char>>::empty());
    }
    let info = if scanning {
        to_owned_string(" (Scanning...)")
    } else {
        match &cache.scanned_at {
            Some(ts) => {
                let a = concat(" (Last: ", ts.as_str());
                concat(a.as_str(), ")")
            },
            None => String::new(),
        }
    };
    let g_n = number_text(groups.len());
    let f_n = number_text(total);
    let w_s = format_size(wasted);
    let a1 = concat(g_n.as_str(), " group(s), ");
    let a2 = concat(a1.as_str(), f_n.as_str());
    let a3 = concat(a2.as_str(), " total files, ");
    let a4 = concat(a3.as_str(), w_s.as_str());
    let a5 = concat(a4.as_str(), " wasted");
    push_line(&mut out, concat(a5.as_str(), info.as_str()));
    push_line(&mut out, String::new());
    let (start, end) = visible_window(selected, total, 15);
    if start > 0 {
        let n = number_text(start);
        let a = concat("  ... ", n.as_str());
        push_line(&mut out, concat(a.as_str(), " more above"));
    }
    let ghost head = texts(out@);
    let mut k = start;
    proof {
        assert(dup_rows(fv, selected as int, start as int, start as int) =~= Seq::<Seq<char>>::empty());
        assert(texts(out@) =~= head + dup_rows(fv, selected as int, start as int, start as int));
    }
    while k < end
        invariant
            start <= k <= end <= flat@.len(),
            fv == flat@.map_values(|e: (bool, String, String)| (e.0, e.1@, e.2@)),
            texts(out@) == head + dup_rows(fv, selected as int, start as int, k as int),
        decreases end - k,
    {
        if flat[k].0 {
            push_line(&mut out, flat[k].1.clone());
        }
        let m = if k == selected { "> " } else { "  " };
        push_line(&mut out, concat(m, flat[k].2.as_str()));
        proof {
            assert(fv[k as int] == (flat@[k as int].0, flat@[k as int].1@, flat@[k as int].2@));
            assert(texts(out@) =~= head + dup_rows(fv, selected as int, start as int, k + 1));
        }
        k = k + 1;
    }
    if end < total {
        let n = number_text(total - end);
        let a = concat("  ... ", n.as_str());
        push_line(&mut out, concat(a.as_str(), " more below"));
    }
    if groups.len() == 0 {
        push_line(&mut out, to_owned_string("  No duplicate files found"));
    }
    push_line(&mut out, String::new());
    push_line(&mut out, to_owned_string("Enter: jump | d: delete | j/k: navigate | Esc: close"));
    proof {
        assert(fv == dup_flat(gv, home@));
        assert(texts(out@) =~= duplicate_text(
            gv,
            selected as int,
            home@,
            scanning,
            match cache.scanned_at { Some(t) => Some(t@), None => None },
        ));
    }
    out
}

} // verus!

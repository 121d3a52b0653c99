//! The preview of a directory: its name, then its shallow tree, one styled
//! line per entry, or a note when it is empty or could not be read.

use vstd::prelude::*;
use crate::config::theme::{parse_color, Theme, ThemeColor};
use crate::error::CoreError;
use crate::fs::preview::TreeEntry;
use crate::fs::tree::{tree_entries_view, tree_entry_view};
use crate::text::{
    chars_of, concat, find_text, index_of_text, nfc_composed, nfc_string, path_file_name, str_eq,
    std_file_name, std_lowercase, string_from_chars, to_lowercase,
};
use crate::tui::style::{color_ok, plain_style, spans_view, theme_color, StyledSpan, TextStyle};

verus! {

/// What follows the last `c` in `s` (all of `s` when there is none), as
/// `str::rsplit(c).next()` gives it.
pub open spec fn after_last(s: Seq<char>, c: char) -> Seq<char>
    decreases s.len(),
{
    if s.len() == 0 {
        s
    } else if s.last() == c {
        Seq::empty()
    } else {
        after_last(s.drop_last(), c).push(s.last())
    }
}

/// The text after the last `c` in `s`.
pub fn last_segment(s: &str, c: char) -> (r: String)
    ensures
        r@ == after_last(s@, c),
{
    let mut cs = chars_of(s);
    let mut i: usize = cs.len();
    proof {
        assert(cs@.take(i as int) =~= cs@);
        assert(cs@.skip(i as int) =~= Seq::<char>::empty());
        assert(after_last(cs@, c) + Seq::<char>::empty() =~= after_last(cs@, c));
    }
    while i > 0 && cs[i - 1] != c
        invariant
            i <= cs.len(),
            after_last(cs@, c) == after_last(cs@.take(i as int), c) + cs@.skip(i as int),
        decreases i,
    {
        proof {
            let t = cs@.take(i as int);
            assert(t.drop_last() =~= cs@.take(i - 1));
            assert(cs@.skip(i - 1) =~= seq![cs@[i - 1]] + cs@.skip(i as int));
            assert(after_last(cs@.take(i - 1), c).push(cs@[i - 1]) + cs@.skip(i as int)
                =~= after_last(cs@.take(i - 1), c) + cs@.skip(i - 1));
        }
        i = i - 1;
    }
    proof {
        if i == 0 {
            assert(cs@.take(0) =~= Seq::<char>::empty());
        }
        assert(cs@.skip(i as int) =~= cs@.subrange(i as int, cs@.len() as int));
        assert(Seq::<char>::empty() + cs@.skip(i as int) =~= cs@.skip(i as int));
    }
    let tail = cs.split_off(i);
    string_from_chars(tail.as_slice())
}

/// The icon of a file in the tree, by the lower-cased text after its last
/// dot.
pub open spec fn tree_icon_of(name: Seq<char>) -> Seq<char> {
    let ext = std_lowercase(after_last(name, '.'));
    if ext == "rs"@ {
        "\u{e7a8} "@
    } else if ext == "py"@ {
        "\u{e73c} "@
    } else if ext == "js"@ {
        "\u{e74e} "@
    } else if ext == "ts"@ {
        "\u{e628} "@
    } else if ext == "md"@ {
        "\u{e73e} "@
    } else if ext == "json"@ {
        "\u{e60b} "@
    } else if ext == "toml"@ {
        "\u{e615} "@
    } else if ext == "yaml"@ || ext == "yml"@ {
        "\u{e6a8} "@
    } else {
        "\u{f15b} "@
    }
}

/// The icon of a file in the tree (see [`tree_icon_of`]).
pub fn tree_icon(name: &str) -> (r: &'static str)
    ensures
        r@ == tree_icon_of(name@),
{
    let ext = to_lowercase(last_segment(name, '.').as_str());
    let e = ext.as_str();
    proof {
        reveal_strlit("rs");
        reveal_strlit("py");
        reveal_strlit("js");
        reveal_strlit("ts");
        reveal_strlit("md");
        reveal_strlit("json");
        reveal_strlit("toml");
        reveal_strlit("yaml");
        reveal_strlit("yml");
    }
    if str_eq(e, "rs") {
        "\u{e7a8} "
    } else if str_eq(e, "py") {
        "\u{e73c} "
    } else if str_eq(e, "js") {
        "\u{e74e} "
    } else if str_eq(e, "ts") {
        "\u{e628} "
    } else if str_eq(e, "md") {
        "\u{e73e} "
    } else if str_eq(e, "json") {
        "\u{e60b} "
    } else if str_eq(e, "toml") {
        "\u{e615} "
    } else if str_eq(e, "yaml") || str_eq(e, "yml") {
        "\u{e6a8} "
    } else {
        "\u{f15b} "
    }
}

/// `n` spaces.
pub open spec fn spaces(n: nat) -> Seq<char> {
    Seq::new(n, |i: int| ' ')
}

/// The line of a tree entry: two spaces per level (one level more than its
/// depth), its icon, and its name; directories in the directory color,
/// files in white.
pub open spec fn tree_line_of(e: (Seq<char>, bool, nat), show_icons: bool, theme: Theme) -> (Seq<char>, TextStyle) {
    let icon = if e.1 {
        if show_icons {
            "\u{f07b} "@
        } else {
            "/"@
        }
    } else if show_icons {
        tree_icon_of(e.0)
    } else {
        " "@
    };
    let fg = if e.1 {
        theme_color(theme.preview.dir_title_fg@)
    } else {
        ThemeColor::White
    };
    (spaces(2 * (e.2 + 1)) + icon + e.0, TextStyle { fg: Some(fg), ..plain_style() })
}

/// The lines of the directory preview: the directory's name in bold, a
/// blank line, then one line per tree entry, a note for an empty tree, or
/// the error (with a hint on granting access when it is about
/// permissions).
pub open spec fn dir_preview_of(
    title: Seq<char>,
    tree: Result<Seq<(Seq<char>, bool, nat)>, Seq<char>>,
    show_icons: bool,
    theme: Theme,
) -> Seq<(Seq<char>, TextStyle)> {
    let head = seq![
        ("Directory: "@ + title, TextStyle { fg: Some(theme_color(theme.preview.dir_title_fg@)), bold: true, ..plain_style() }),
        (Seq::empty(), plain_style()),
    ];
    match tree {
        Ok(es) => if es.len() == 0 {
            head.push(("  (empty directory)"@, TextStyle { fg: Some(ThemeColor::DarkGray), ..plain_style() }))
        } else {
            head + es.map_values(|e: (Seq<char>, bool, nat)| tree_line_of(e, show_icons, theme))
        },
        Err(msg) => {
            let err = ("  (unable to read directory: "@ + msg + ")"@, TextStyle {
                fg: Some(theme_color(theme.preview.error_fg@)),
                ..plain_style()
            });
            let hint_style = TextStyle {
                fg: Some(theme_color(theme.preview.truncation_fg@)),
                italic: true,
                ..plain_style()
            };
            let hint = if index_of_text(msg, "ermission"@) is Some {
                seq![
                    ("  Hint: grant terminal Full Disk Access in"@, hint_style),
                    ("    System Settings \u{2192} Privacy & Security"@, hint_style),
                ]
            } else {
                Seq::empty()
            };
            head.push(err) + hint
        },
    }
}

/// The title of a directory's preview: its last component, or the whole
/// path when it has none, in NFC form.
pub open spec fn dir_title_of(path: Seq<char>) -> Seq<char> {
    match std_file_name(path) {
        Some(n) => nfc_composed(n),
        None => nfc_composed(path),
    }
}

/// Every entry's indentation fits in memory.
pub open spec fn depths_fit(entries: Seq<TreeEntry>) -> bool {
    forall|i: int| 0 <= i < entries.len() ==> 2 * ((#[trigger] entries[i]).depth + 1) <= usize::MAX
}

/// The lines of a tree preview line by line.
fn push_tree_lines(out: &mut Vec<StyledSpan>, entries: &Vec<TreeEntry>, show_icons: bool, theme: &Theme)
    requires
        color_ok(theme.preview.dir_title_fg@),
        depths_fit(entries@),
    ensures
        spans_view(final(out)@) == spans_view(old(out)@) + tree_entries_view(entries@).map_values(
            |e: (Seq<char>, bool, nat)| tree_line_of(e, show_icons, *theme),
        ),
{
    let ghost start = spans_view(out@);
    let ghost lines = tree_entries_view(entries@).map_values(
        |e: (Seq<char>, bool, nat)| tree_line_of(e, show_icons, *theme),
    );
    let mut i: usize = 0;
    while i < entries.len()
        invariant
            i <= entries.len(),
            color_ok(theme.preview.dir_title_fg@),
            depths_fit(entries@),
            lines.len() == entries.len(),
            lines == tree_entries_view(entries@).map_values(
                |e: (Seq<char>, bool, nat)| tree_line_of(e, show_icons, *theme),
            ),
            spans_view(out@) == start + lines.take(i as int),
        decreases entries.len() - i,
    {
        let e = &entries[i];
        let ghost ev = tree_entry_view(*e);
        let mut indent: Vec<char> = Vec::new();
        let mut k: usize = 0;
        let depth = e.depth;
        let n: usize = 2 * (depth + 1);
        while k < n
            invariant
                k <= n,
                indent@ == spaces(k as nat),
            decreases n - k,
        {
            indent.push(' ');
            k = k + 1;
            proof {
                assert(indent@ =~= spaces(k as nat));
            }
        }
        let icon: &str = if e.is_dir {
            if show_icons {
                "\u{f07b} "
            } else {
                "/"
            }
        } else if show_icons {
            tree_icon(e.name.as_str())
        } else {
            " "
        };
        let fg = if e.is_dir {
            parse_color(theme.preview.dir_title_fg.as_str())
        } else {
            ThemeColor::White
        };
        let head = concat(string_from_chars(indent.as_slice()).as_str(), icon);
        let text = concat(head.as_str(), e.name.as_str());
        let ghost before = out@;
        out.push(StyledSpan { text, style: TextStyle { fg: Some(fg), ..TextStyle::plain() } });
        proof {
            reveal_strlit("\u{f07b} ");
            reveal_strlit("/");
            reveal_strlit(" ");
            assert(lines[i as int] == tree_line_of(ev, show_icons, *theme));
            assert(lines.take(i + 1) =~= lines.take(i as int).push(lines[i as int]));
            assert(spans_view(out@) =~= spans_view(before).push(lines[i as int]));
        }
        i = i + 1;
    }
    proof {
        assert(lines.take(i as int) =~= lines);
    }
}

/// Pushes one line in one style.
fn push_span(out: &mut Vec<StyledSpan>, text: String, style: TextStyle)
    ensures
        spans_view(final(out)@) == spans_view(old(out)@).push((text@, style)),
{
    let ghost before = out@;
    out.push(StyledSpan { text, style });
    proof {
        assert(spans_view(out@) =~= spans_view(before).push((text@, style)));
    }
}

/// The lines of the preview of the directory at `path`, given its tree as
/// read (or the message of the error that stopped the reading); see
/// [`dir_preview_of`].
pub fn directory_preview_lines(
    path: &str,
    tree: &Result<Vec<TreeEntry>, String>,
    show_icons: bool,
    theme: &Theme,
) -> (r: Vec<StyledSpan>)
    requires
        color_ok(theme.preview.dir_title_fg@),
        tree matches Ok(es) ==> depths_fit(es@),
        tree matches Err(m) ==> color_ok(theme.preview.error_fg@),
        tree matches Err(m) && index_of_text(m@, "ermission"@) is Some ==> color_ok(theme.preview.truncation_fg@),
    ensures
        spans_view(r@) == dir_preview_of(
            dir_title_of(path@),
            match tree {
                Ok(es) => Ok(tree_entries_view(es@)),
                Err(m) => Err(m@),
            },
            show_icons,
            *theme,
        ),
{
    let title = match path_file_name(path) {
        Some(n) => nfc_string(n.as_str()),
        None => nfc_string(path),
    };
    let dir_fg = parse_color(theme.preview.dir_title_fg.as_str());
    let mut out: Vec<StyledSpan> = Vec::new();
    push_span(
        &mut out,
        concat("Directory: ", title.as_str()),
        TextStyle { fg: Some(dir_fg), bold: true, ..TextStyle::plain() },
    );
    push_span(&mut out, String::new(), TextStyle::plain());
    let ghost head = spans_view(out@);
    proof {
        reveal_strlit("Directory: ");
        assert(head =~= seq![
            ("Directory: "@ + dir_title_of(path@), TextStyle { fg: Some(theme_color(theme.preview.dir_title_fg@)), bold: true, ..plain_style() }),
            (Seq::<char>::empty(), plain_style()),
        ]);
    }
    match tree {
        Ok(es) => {
            if es.len() == 0 {
                push_span(
                    &mut out,
                    "  (empty directory)".to_owned(),
                    TextStyle { fg: Some(ThemeColor::DarkGray), ..TextStyle::plain() },
                );
            } else {
                push_tree_lines(&mut out, es, show_icons, theme);
            }
        },
        Err(m) => {
            let err_fg = parse_color(theme.preview.error_fg.as_str());
            let t1 = concat("  (unable to read directory: ", m.as_str());
            push_span(&mut out, concat(t1.as_str(), ")"), TextStyle { fg: Some(err_fg), ..TextStyle::plain() });
            let mc = chars_of(m.as_str());
            let pat = chars_of("ermission");
            let ghost with_err = spans_view(out@);
            if find_text(&mc, &pat).is_some() {
                let hint = TextStyle {
                    fg: Some(parse_color(theme.preview.truncation_fg.as_str())),
                    italic: true,
                    ..TextStyle::plain()
                };
                push_span(&mut out, "  Hint: grant terminal Full Disk Access in".to_owned(), hint);
                push_span(&mut out, "    System Settings \u{2192} Privacy & Security".to_owned(), hint);
                proof {
                    assert(spans_view(out@) =~= with_err + seq![
                        ("  Hint: grant terminal Full Disk Access in"@, hint),
                        ("    System Settings \u{2192} Privacy & Security"@, hint),
                    ]);
                }
            } else {
                proof {
                    assert(spans_view(out@) =~= with_err + Seq::<(Seq<char>, TextStyle)>::empty());
                }
            }
            proof {
                reveal_strlit("  (unable to read directory: ");
                reveal_strlit(")");
            }
        },
    }
    out
}

} // verus!

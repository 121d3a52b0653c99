//! The breadcrumb above a file list: the current directory, shortened to
//! `~` under the home directory, and the git branch at the right.

use vstd::prelude::*;
use crate::config::theme::{parse_color, Theme};
use crate::git::branch::BranchInfo;
use crate::text::{concat, nfc_composed, nfc_string, path_strip_prefix, std_strip_prefix};
use crate::tui::style::{color_ok, plain_style, spans_view, theme_color, StyledSpan, TextStyle};

verus! {

/// The components that `std::path::Path::components` yields for a path,
/// each shown lossily.
pub uninterp spec fn std_components(p: Seq<char>) -> Seq<Seq<char>>;

/// Calls `Path::components` and shows each component lossily; the result
/// is named [`std_components`].
#[verifier::external_body]
pub fn path_components(p: &str) -> (r: Vec<String>)
    ensures
        r@.map_values(|s: String| s@) == std_components(p@),
{
    std::path::Path::new(p).components().map(|c| c.as_os_str().to_string_lossy().into_owned()).collect()
}

/// The spans of the components `cs`, each after a ` / ` separator.
pub open spec fn component_spans(cs: Seq<Seq<char>>, theme: Theme) -> Seq<(Seq<char>, TextStyle)>
    decreases cs.len(),
{
    if cs.len() == 0 {
        Seq::empty()
    } else {
        component_spans(cs.drop_last(), theme) + seq![
            (" / "@, TextStyle { fg: Some(theme_color(theme.breadcrumb.separator_fg@)), ..plain_style() }),
            (nfc_composed(cs.last()), TextStyle { fg: Some(theme_color(theme.breadcrumb.component_fg@)), ..plain_style() }),
        ]
    }
}

/// The path part of the breadcrumb: under `home`, a bold `~` and the
/// components below it; elsewhere the whole path. Names are in NFC form.
pub open spec fn breadcrumb_path_of(dir: Seq<char>, home: Seq<char>, theme: Theme) -> Seq<(Seq<char>, TextStyle)> {
    match std_strip_prefix(dir, home) {
        Some(rest) => seq![
            (" ~"@, TextStyle { fg: Some(theme_color(theme.breadcrumb.home_fg@)), bold: true, ..plain_style() }),
        ] + component_spans(std_components(rest), theme),
        None => seq![
            (" "@ + nfc_composed(dir), TextStyle { fg: Some(theme_color(theme.breadcrumb.component_fg@)), ..plain_style() }),
        ],
    }
}

/// The colors the path part of the breadcrumb needs can be read.
pub open spec fn breadcrumb_colors_ok(dir: Seq<char>, home: Seq<char>, theme: Theme) -> bool {
    &&& color_ok(theme.breadcrumb.component_fg@)
    &&& std_strip_prefix(dir, home) is Some ==> {
        &&& color_ok(theme.breadcrumb.home_fg@)
        &&& color_ok(theme.breadcrumb.separator_fg@)
    }
}

/// The path part of the breadcrumb of `current_dir` (see
/// [`breadcrumb_path_of`]).
pub fn breadcrumb_path(current_dir: &str, home: &str, theme: &Theme) -> (r: Vec<StyledSpan>)
    requires
        breadcrumb_colors_ok(current_dir@, home@, *theme),
    ensures
        spans_view(r@) == breadcrumb_path_of(current_dir@, home@, *theme),
{
    let comp = TextStyle { fg: Some(parse_color(theme.breadcrumb.component_fg.as_str())), ..TextStyle::plain() };
    let mut out: Vec<StyledSpan> = Vec::new();
    match path_strip_prefix(current_dir, home) {
        Some(rest) => {
            let home_style = TextStyle {
                fg: Some(parse_color(theme.breadcrumb.home_fg.as_str())),
                bold: true,
                ..TextStyle::plain()
            };
            let sep = TextStyle { fg: Some(parse_color(theme.breadcrumb.separator_fg.as_str())), ..TextStyle::plain() };
            out.push(StyledSpan { text: " ~".to_owned(), style: home_style });
            let cs = path_components(rest.as_str());
            let ghost csv = cs@.map_values(|s: String| s@);
            proof {
                reveal_strlit(" ~");
                assert(spans_view(out@) =~= seq![(" ~"@, home_style)] + component_spans(csv.take(0), *theme));
            }
            let mut i: usize = 0;
            while i < cs.len()
                invariant
                    i <= cs.len(),
                    csv == cs@.map_values(|s: String| s@),
                    color_ok(theme.breadcrumb.separator_fg@),
                    color_ok(theme.breadcrumb.component_fg@),
                    sep == (TextStyle { fg: Some(theme_color(theme.breadcrumb.separator_fg@)), ..plain_style() }),
                    comp == (TextStyle { fg: Some(theme_color(theme.breadcrumb.component_fg@)), ..plain_style() }),
                    spans_view(out@) == seq![(" ~"@, home_style)] + component_spans(csv.take(i as int), *theme),
                decreases cs.len() - i,
            {
                let ghost before = spans_view(out@);
                out.push(StyledSpan { text: " / ".to_owned(), style: sep });
                out.push(StyledSpan { text: nfc_string(cs[i].as_str()), style: comp });
                proof {
                    reveal_strlit(" / ");
                    assert(csv.take(i + 1).drop_last() =~= csv.take(i as int));
                    assert(spans_view(out@) =~= before + seq![(" / "@, sep), (nfc_composed(csv[i as int]), comp)]);
                }
                i = i + 1;
            }
            proof {
                assert(csv.take(i as int) =~= csv);
            }
        },
        None => {
            out.push(StyledSpan { text: concat(" ", nfc_string(current_dir).as_str()), style: comp });
            proof {
                reveal_strlit(" ");
                assert(spans_view(out@) =~= breadcrumb_path_of(current_dir@, home@, *theme));
            }
        },
    }
    out
}

/// The branch part of the breadcrumb: the branch symbol, the branch name,
/// `*` when the tree is dirty, in bold in the clean or dirty branch color.
pub open spec fn breadcrumb_branch_of(info: BranchInfo, theme: Theme) -> (Seq<char>, TextStyle) {
    let text = " \u{e0a0} "@ + info.name@ + (if info.is_dirty {
        "*"@
    } else {
        Seq::empty()
    }) + " "@;
    let fg = if info.is_dirty {
        theme_color(theme.statusbar.branch_dirty_fg@)
    } else {
        theme_color(theme.statusbar.branch_clean_fg@)
    };
    (text, TextStyle { fg: Some(fg), bold: true, ..plain_style() })
}

/// The branch part of the breadcrumb (see [`breadcrumb_branch_of`]).
pub fn breadcrumb_branch(info: &BranchInfo, theme: &Theme) -> (r: StyledSpan)
    requires
        info.is_dirty ==> color_ok(theme.statusbar.branch_dirty_fg@),
        !info.is_dirty ==> color_ok(theme.statusbar.branch_clean_fg@),
    ensures
        (r.text@, r.style) == breadcrumb_branch_of(*info, *theme),
{
    let head = concat(" \u{e0a0} ", info.name.as_str());
    let marked = if info.is_dirty {
        concat(head.as_str(), "*")
    } else {
        head
    };
    let text = concat(marked.as_str(), " ");
    let fg = if info.is_dirty {
        parse_color(theme.statusbar.branch_dirty_fg.as_str())
    } else {
        parse_color(theme.statusbar.branch_clean_fg.as_str())
    };
    proof {
        reveal_strlit(" \u{e0a0} ");
        reveal_strlit("*");
        reveal_strlit(" ");
        assert(Seq::<char>::empty() + " "@ =~= " "@);
        assert(" \u{e0a0} "@ + info.name@ + Seq::<char>::empty() =~= " \u{e0a0} "@ + info.name@);
    }
    StyledSpan { text, style: TextStyle { fg: Some(fg), bold: true, ..TextStyle::plain() } }
}

} // verus!

//! Syntax-highlighted file previews. `syntect`, with its bundled syntaxes
//! and themes, colors the text; which syntax and theme are used, the line
//! numbers, the notes and the pager's window are decided here.

use syntect::easy::HighlightLines;
use syntect::highlighting::{FontStyle, ThemeSet};
use syntect::parsing::SyntaxSet;
use vstd::prelude::*;
use crate::config::theme::{parse_color, Theme, ThemeColor};
use crate::fs::preview::TextPreview;
use crate::text::{path_extension, path_file_name, std_extension, std_file_name};
use crate::tui::overlay::{line_number, line_number_text};
use crate::tui::preview_text::{binary_note, binary_text, truncation_note, truncation_text};
use crate::tui::style::{color_ok, plain_style, theme_color, StyledSpan, TextStyle};
use crate::tui::markdown::{lines_view, SpanView};

verus! {

/// A piece of highlighted text: its foreground and background colors
/// (RGB),
/// whether it is bold, italic or underlined, and the text.
#[derive(Debug, Clone)]
pub struct HighlightedSpan {
    pub fg: ThemeColor,
    pub bg: ThemeColor,
    pub bold: bool,
    pub italic: bool,
    pub underlined: bool,
    pub text: String,
}

/// The plain content of a highlighted piece of text.
pub type HighlightView = (ThemeColor, ThemeColor, bool, bool, bool, Seq<char>);

/// The view of a highlighted piece of text.
pub open spec fn span_view(s: HighlightedSpan) -> HighlightView {
    (s.fg, s.bg, s.bold, s.italic, s.underlined, s.text@)
}

/// The views of highlighted lines.
pub open spec fn highlighted_view(v: Seq<Vec<HighlightedSpan>>) -> Seq<Seq<HighlightView>> {
    v.map_values(|l: Vec<HighlightedSpan>| l@.map_values(|s: HighlightedSpan| span_view(s)))
}

/// Whether syntect's default theme set has a theme of this name.
pub uninterp spec fn default_theme_exists(name: Seq<char>) -> bool;

/// Whether syntect's default syntax set has a syntax for this extension.
pub uninterp spec fn default_syntax_exists(extension: Seq<char>) -> bool;

/// The background color of a default theme, if it sets one.
pub uninterp spec fn default_theme_background(name: Seq<char>) -> Option<ThemeColor>;

/// What syntect's `HighlightLines` gives for `lines` with the default
/// syntax for `extension` and the default theme `theme`.
pub uninterp spec fn syntect_highlighting(extension: Seq<char>, theme: Seq<char>, lines: Seq<Seq<char>>) -> Seq<Seq<HighlightView>>;

/// What syntect's `HighlightLines` gives for `lines` as plain text, with
/// the default theme `theme`.
pub uninterp spec fn syntect_plain_highlighting(theme: Seq<char>, lines: Seq<Seq<char>>) -> Seq<Seq<HighlightView>>;

/// The texts of `v`.
pub open spec fn line_texts(v: Seq<String>) -> Seq<Seq<char>> {
    v.map_values(|s: String| s@)
}

/// Looks `name` up in `ThemeSet::load_defaults()`. Its documentation lists
/// `base16-ocean.dark` among the keys, which is the one fact stated beside
/// the name [`default_theme_exists`].
#[verifier::external_body]
fn has_default_theme(name: &str) -> (r: bool)
    ensures
        r == default_theme_exists(name@),
        name@ == "base16-ocean.dark"@ ==> r,
{
    ThemeSet::load_defaults().themes.contains_key(name)
}

/// Asks `SyntaxSet::load_defaults_newlines().find_syntax_by_extension`
/// whether a syntax claims `extension`; the answer is named.
#[verifier::external_body]
fn has_default_syntax(extension: &str) -> (r: bool)
    ensures
        r == default_syntax_exists(extension@),
{
    SyntaxSet::load_defaults_newlines().find_syntax_by_extension(extension).is_some()
}

/// The background a default theme sets (`settings.background`); named.
#[verifier::external_body]
fn theme_background(theme: &str) -> (r: Option<ThemeColor>)
    requires
        default_theme_exists(theme@),
    ensures
        r == default_theme_background(theme@),
{
    ThemeSet::load_defaults().themes[theme].settings.background.map(|c| ThemeColor::Rgb(c.r, c.g, c.b))
}

/// Highlights `lines` with `HighlightLines` for the default syntax of
/// `extension` and the default theme `theme`; a line syntect cannot
/// highlight comes out empty. The result is named.
#[verifier::external_body]
fn highlight_with_syntax(extension: &str, theme: &str, lines: &Vec<String>) -> (r: Vec<Vec<HighlightedSpan>>)
    requires
        default_theme_exists(theme@),
        default_syntax_exists(extension@),
    ensures
        highlighted_view(r@) == syntect_highlighting(extension@, theme@, line_texts(lines@)),
{
    let ss = SyntaxSet::load_defaults_newlines();
    let ts = ThemeSet::load_defaults();
    let mut h = HighlightLines::new(ss.find_syntax_by_extension(extension).unwrap(), &ts.themes[theme]);
    lines.iter().map(|l| h.highlight_line(l, &ss).unwrap_or_default().into_iter().map(|(st, t)| HighlightedSpan {
        fg: ThemeColor::Rgb(st.foreground.r, st.foreground.g, st.foreground.b),
        bg: ThemeColor::Rgb(st.background.r, st.background.g, st.background.b),
        bold: st.font_style.contains(FontStyle::BOLD),
        italic: st.font_style.contains(FontStyle::ITALIC),
        underlined: st.font_style.contains(FontStyle::UNDERLINE),
        text: t.to_string(),
    }).collect()).collect()
}

/// Highlights `lines` as plain text (`find_syntax_plain_text`) with the
/// default theme `theme`. The result is named.
#[verifier::external_body]
fn highlight_plain(theme: &str, lines: &Vec<String>) -> (r: Vec<Vec<HighlightedSpan>>)
    requires
        default_theme_exists(theme@),
    ensures
        highlighted_view(r@) == syntect_plain_highlighting(theme@, line_texts(lines@)),
{
    let ss = SyntaxSet::load_defaults_newlines();
    let ts = ThemeSet::load_defaults();
    let mut h = HighlightLines::new(ss.find_syntax_plain_text(), &ts.themes[theme]);
    lines.iter().map(|l| h.highlight_line(l, &ss).unwrap_or_default().into_iter().map(|(st, t)| HighlightedSpan {
        fg: ThemeColor::Rgb(st.foreground.r, st.foreground.g, st.foreground.b),
        bg: ThemeColor::Rgb(st.background.r, st.background.g, st.background.b),
        bold: st.font_style.contains(FontStyle::BOLD),
        italic: st.font_style.contains(FontStyle::ITALIC),
        underlined: st.font_style.contains(FontStyle::UNDERLINE),
        text: t.to_string(),
    }).collect()).collect()
}

/// The theme used: the configured one when syntect has it, else
/// `base16-ocean.dark`.
pub open spec fn chosen_theme(name: Seq<char>) -> Seq<char> {
    if default_theme_exists(name) {
        name
    } else {
        "base16-ocean.dark"@
    }
}

/// The extension whose syntax colors a file: its extension when a syntax
/// claims it, else its file name when one claims that, else none (plain
/// text).
pub open spec fn chosen_syntax(path: Seq<char>) -> Option<Seq<char>> {
    match std_extension(path) {
        Some(e) if default_syntax_exists(e) => Some(e),
        _ => match std_file_name(path) {
            Some(n) if default_syntax_exists(n) => Some(n),
            _ => None,
        },
    }
}

/// The highlighted lines of the file `path` and its theme's background.
pub open spec fn highlighting_of(path: Seq<char>, theme: Seq<char>, lines: Seq<Seq<char>>) -> (Seq<Seq<HighlightView>>, Option<ThemeColor>) {
    let th = chosen_theme(theme);
    (
        match chosen_syntax(path) {
            Some(e) => syntect_highlighting(e, th, lines),
            None => syntect_plain_highlighting(th, lines),
        },
        default_theme_background(th),
    )
}

/// Highlights the lines of the file `path` with the theme `theme_name`
/// (see [`chosen_theme`] and [`chosen_syntax`]), and gives the theme's
/// background.
pub fn highlight_lines(path: &str, theme_name: &str, lines: &Vec<String>) -> (r: (Vec<Vec<HighlightedSpan>>, Option<ThemeColor>))
    ensures
        (highlighted_view(r.0@), r.1) == highlighting_of(path@, theme_name@, line_texts(lines@)),
{
    proof {
        reveal_strlit("base16-ocean.dark");
    }
    let theme: &str = if has_default_theme(theme_name) {
        theme_name
    } else {
        // The fallback is one of the bundled themes; asking confirms it.
        let fallback = "base16-ocean.dark";
        let _present = has_default_theme(fallback);
        fallback
    };
    let bg = theme_background(theme);
    let by_ext = match path_extension(path) {
        Some(e) => if has_default_syntax(e.as_str()) {
            Some(e)
        } else {
            None
        },
        None => None,
    };
    let token = match by_ext {
        Some(e) => Some(e),
        None => match path_file_name(path) {
            Some(n) => if has_default_syntax(n.as_str()) {
                Some(n)
            } else {
                None
            },
            None => None,
        },
    };
    let spans = match token {
        Some(t) => highlight_with_syntax(t.as_str(), theme, lines),
        None => highlight_plain(theme, lines),
    };
    (spans, bg)
}

/// The style of a highlighted piece of text.
pub open spec fn styled_of(h: HighlightView) -> SpanView {
    (h.5, TextStyle { fg: Some(h.0), bg: Some(h.1), bold: h.2, italic: h.3, underlined: h.4 })
}

/// The style of line numbers: the theme's line-number color on the
/// highlighting theme's background.
pub open spec fn number_style(theme: Theme, bg: Option<ThemeColor>) -> TextStyle {
    TextStyle { fg: Some(theme_color(theme.preview.line_number_fg@)), bg, ..plain_style() }
}

/// Line `n` of a text of `total` lines: its number, then its highlighted
/// pieces.
pub open spec fn numbered_line(n: nat, total: nat, hl: Seq<HighlightView>, theme: Theme, bg: Option<ThemeColor>) -> Seq<SpanView> {
    seq![(line_number_text(n, total), number_style(theme, bg))] + hl.map_values(|h: HighlightView| styled_of(h))
}

/// The highlighted lines `hl`, numbered from `first`.
pub open spec fn numbered_lines(first: nat, total: nat, hl: Seq<Seq<HighlightView>>, theme: Theme, bg: Option<ThemeColor>) -> Seq<Seq<SpanView>> {
    Seq::new(hl.len(), |i: int| numbered_line((first + i) as nat, total, hl[i], theme, bg))
}

/// The preview of a file of `size` bytes: a size note for a binary file, a
/// note when it could not be read, else its highlighted lines numbered
/// from 1, and a note when only the first lines are shown.
pub open spec fn file_preview_of(
    size: nat,
    binary: bool,
    preview: Option<TextPreview>,
    hl: Seq<Seq<HighlightView>>,
    bg: Option<ThemeColor>,
    theme: Theme,
) -> Seq<Seq<SpanView>> {
    if binary {
        seq![seq![(binary_text(size), TextStyle { fg: Some(ThemeColor::DarkGray), ..plain_style() })]]
    } else {
        match preview {
            None => seq![seq![("Unable to read file"@, TextStyle { fg: Some(theme_color(theme.preview.error_fg@)), ..plain_style() })]],
            Some(p) => numbered_lines(1, p.total_lines as nat, hl, theme, bg) + if p.is_truncated {
                seq![
                    Seq::empty(),
                    seq![(truncation_text(p.lines@.len(), p.total_lines as nat), TextStyle {
                        fg: Some(theme_color(theme.preview.truncation_fg@)),
                        italic: true,
                        ..plain_style()
                    })],
                ]
            } else {
                Seq::empty()
            },
        }
    }
}

/// The styled pieces of one highlighted line.
fn styled_pieces(hl: &Vec<HighlightedSpan>) -> (r: Vec<StyledSpan>)
    ensures
        crate::tui::style::spans_view(r@) == hl@.map_values(|s: HighlightedSpan| styled_of(span_view(s))),
{
    let mut out: Vec<StyledSpan> = Vec::new();
    let mut i: usize = 0;
    while i < hl.len()
        invariant
            i <= hl.len(),
            crate::tui::style::spans_view(out@) == hl@.take(i as int).map_values(|s: HighlightedSpan| styled_of(span_view(s))),
        decreases hl.len() - i,
    {
        let h = &hl[i];
        let ghost before = out@;
        out.push(StyledSpan {
            text: h.text.clone(),
            style: TextStyle { fg: Some(h.fg), bg: Some(h.bg), bold: h.bold, italic: h.italic, underlined: h.underlined },
        });
        proof {
            assert(hl@.take(i + 1) =~= hl@.take(i as int).push(hl@[i as int]));
            assert(crate::tui::style::spans_view(out@) =~= crate::tui::style::spans_view(before).push(styled_of(span_view(hl@[i as int]))));
        }
        i = i + 1;
    }
    proof {
        assert(hl@.take(i as int) =~= hl@);
    }
    out
}

/// Appends the highlighted lines `hl`, numbered from `first`.
fn push_numbered(
    out: &mut Vec<Vec<StyledSpan>>,
    first: usize,
    total: usize,
    hl: &Vec<Vec<HighlightedSpan>>,
    theme: &Theme,
    bg: Option<ThemeColor>,
)
    requires
        color_ok(theme.preview.line_number_fg@),
        first + hl@.len() < usize::MAX,
    ensures
        lines_view(final(out)@) == lines_view(old(out)@) + numbered_lines(first as nat, total as nat, highlighted_view(hl@), *theme, bg),
{
    let ghost start = lines_view(out@);
    let ghost want = numbered_lines(first as nat, total as nat, highlighted_view(hl@), *theme, bg);
    let num = TextStyle { fg: Some(parse_color(theme.preview.line_number_fg.as_str())), bg, ..TextStyle::plain() };
    let mut i: usize = 0;
    while i < hl.len()
        invariant
            i <= hl.len(),
            first + hl@.len() < usize::MAX,
            num == number_style(*theme, bg),
            want == numbered_lines(first as nat, total as nat, highlighted_view(hl@), *theme, bg),
            lines_view(out@) == start + want.take(i as int),
        decreases hl.len() - i,
    {
        let mut line: Vec<StyledSpan> = Vec::new();
        line.push(StyledSpan { text: line_number(first + i, total), style: num });
        let mut rest = styled_pieces(&hl[i]);
        let ghost head = line@;
        line.append(&mut rest);
        let ghost before = out@;
        out.push(line);
        proof {
            let hv = highlighted_view(hl@)[i as int];
            assert(hv == hl@[i as int]@.map_values(|s: HighlightedSpan| span_view(s)));
            assert(hv.map_values(|h: HighlightView| styled_of(h)) =~= hl@[i as int]@.map_values(|s: HighlightedSpan| styled_of(span_view(s))));
            assert(crate::tui::style::spans_view(line@) =~= want[i as int]);
            assert(want.take(i + 1) =~= want.take(i as int).push(want[i as int]));
            assert(lines_view(out@) =~~= lines_view(before).push(crate::tui::style::spans_view(line@)));
        }
        i = i + 1;
    }
    proof {
        assert(want.take(i as int) =~= want);
    }
}

/// The lines of the preview of a file of `size` bytes (see
/// [`file_preview_of`]): `binary` when it looks binary, `preview` its text
/// (`None` when it could not be read), `highlighted` its lines as
/// [`highlight_lines`] colored them and `bg` the theme's background.
pub fn file_preview_lines(
    size: u64,
    binary: bool,
    preview: Option<&TextPreview>,
    highlighted: &Vec<Vec<HighlightedSpan>>,
    bg: Option<ThemeColor>,
    theme: &Theme,
) -> (r: Vec<Vec<StyledSpan>>)
    requires
        !binary && preview is None ==> color_ok(theme.preview.error_fg@),
        !binary && preview is Some ==> color_ok(theme.preview.line_number_fg@) && highlighted@.len() + 1 < usize::MAX,
        !binary ==> (preview matches Some(p) && p.is_truncated ==> color_ok(theme.preview.truncation_fg@)),
    ensures
        lines_view(r@) == file_preview_of(
            size as nat,
            binary,
            match preview {
                Some(p) => Some(*p),
                None => None,
            },
            highlighted_view(highlighted@),
            bg,
            *theme,
        ),
{
    let mut out: Vec<Vec<StyledSpan>> = Vec::new();
    if binary {
        out.push(vec![StyledSpan { text: binary_note(size), style: TextStyle { fg: Some(ThemeColor::DarkGray), ..TextStyle::plain() } }]);
        proof {
            assert(lines_view(out@) =~~= file_preview_of(size as nat, binary, match preview {
                Some(p) => Some(*p),
                None => None,
            }, highlighted_view(highlighted@), bg, *theme));
        }
        return out;
    }
    match preview {
        None => {
            let err = TextStyle { fg: Some(parse_color(theme.preview.error_fg.as_str())), ..TextStyle::plain() };
            out.push(vec![StyledSpan { text: "Unable to read file".to_owned(), style: err }]);
            proof {
                assert(lines_view(out@) =~~= file_preview_of(size as nat, binary, None, highlighted_view(highlighted@), bg, *theme));
            }
        },
        Some(p) => {
            push_numbered(&mut out, 1, p.total_lines, highlighted, theme, bg);
            let ghost numbered = lines_view(out@);
            if p.is_truncated {
                let trunc = TextStyle {
                    fg: Some(parse_color(theme.preview.truncation_fg.as_str())),
                    italic: true,
                    ..TextStyle::plain()
                };
                out.push(Vec::new());
                out.push(vec![StyledSpan { text: truncation_note(p.lines.len(), p.total_lines), style: trunc }]);
                proof {
                    assert(lines_view(out@) =~~= numbered + seq![
                        Seq::empty(),
                        seq![(truncation_text(p.lines@.len(), p.total_lines as nat), trunc)],
                    ]);
                }
            } else {
                proof {
                    assert(lines_view(out@) =~~= numbered + Seq::<Seq<SpanView>>::empty());
                }
            }
            proof {
                assert(Seq::<Seq<SpanView>>::empty() + numbered_lines(1, p.total_lines as nat, highlighted_view(highlighted@), *theme, bg)
                    =~= numbered_lines(1, p.total_lines as nat, highlighted_view(highlighted@), *theme, bg));
            }
        },
    }
    out
}

/// The lines of a text the pager shows from line `scroll` on, at most
/// `height` of them.
pub open spec fn pager_window_of(lines: Seq<String>, scroll: int, height: int) -> Seq<String> {
    let start = if scroll < lines.len() { scroll } else { lines.len() as int };
    let end = if scroll + height < lines.len() { scroll + height } else { lines.len() as int };
    lines.subrange(start, if end < start { start } else { end })
}

/// The lines the pager shows (see [`pager_window_of`]).
pub fn pager_window(lines: &[String], scroll: usize, height: usize) -> (r: Vec<String>)
    ensures
        r@ == pager_window_of(lines@, scroll as int, height as int),
{
    let n = lines.len();
    let start = if scroll < n { scroll } else { n };
    let end = if height < n - start { start + height } else { n };
    let mut out: Vec<String> = Vec::new();
    let mut i = start;
    while i < end
        invariant
            start <= i <= end <= n,
            n == lines@.len(),
            out@ == lines@.subrange(start as int, i as int),
        decreases end - i,
    {
        out.push(lines[i].clone());
        proof {
            assert(lines@.subrange(start as int, i + 1) =~= lines@.subrange(start as int, i as int).push(lines@[i as int]));
        }
        i = i + 1;
    }
    proof {
        assert(end as int == (if scroll + height < n { scroll + height } else { n as int }) || start == n);
    }
    out
}

/// The pager's lines: the highlighted window `highlighted`, numbered from
/// `scroll + 1` within a text of `total` lines.
pub fn pager_lines(total: usize, scroll: usize, highlighted: &Vec<Vec<HighlightedSpan>>, bg: Option<ThemeColor>, theme: &Theme) -> (r: Vec<Vec<StyledSpan>>)
    requires
        color_ok(theme.preview.line_number_fg@),
        scroll + highlighted@.len() + 1 < usize::MAX,
    ensures
        lines_view(r@) == numbered_lines((scroll + 1) as nat, total as nat, highlighted_view(highlighted@), *theme, bg),
{
    let mut out: Vec<Vec<StyledSpan>> = Vec::new();
    push_numbered(&mut out, scroll + 1, total, highlighted, theme, bg);
    proof {
        assert(Seq::<Seq<SpanView>>::empty() + numbered_lines((scroll + 1) as nat, total as nat, highlighted_view(highlighted@), *theme, bg)
            =~= numbered_lines((scroll + 1) as nat, total as nat, highlighted_view(highlighted@), *theme, bg));
    }
    out
}

} // verus!

//! The text of the file preview: notes for truncated and binary files and
//! the metadata shown for images and PDF documents.

use vstd::prelude::*;
use crate::config::theme::{parse_color, Theme};
use crate::fs::preview::{ImageInfo, PdfInfo};
use crate::text::{concat, decimal, string_from_chars, u64_to_decimal};
use crate::tui::statusbar::size_text;
use crate::tui::style::{color_ok, format_preview_size, plain_style, spans_view, theme_color, StyledSpan, TextStyle};

verus! {

/// The decimal digits of `n`.
fn decimal_string(n: u64) -> (r: String)
    ensures
        r@ == decimal(n as nat),
{
    let ds = u64_to_decimal(n);
    string_from_chars(ds.as_slice())
}

/// The note under a truncated preview.
pub open spec fn truncation_text(shown: nat, total: nat) -> Seq<char> {
    "[truncated \u{2014} showing "@ + decimal(shown) + "/"@ + decimal(total) + " lines]"@
}

/// The note under a preview that shows `shown` of `total` lines.
pub fn truncation_note(shown: usize, total: usize) -> (r: String)
    ensures
        r@ == truncation_text(shown as nat, total as nat),
{
    let a = concat("[truncated \u{2014} showing ", decimal_string(shown as u64).as_str());
    let b = concat(concat(a.as_str(), "/").as_str(), decimal_string(total as u64).as_str());
    concat(b.as_str(), " lines]")
}

/// The preview of a binary file: its size.
pub open spec fn binary_text(size: nat) -> Seq<char> {
    "Binary file - "@ + size_text(size)
}

/// The preview text of a binary file of `size` bytes.
pub fn binary_note(size: u64) -> (r: String)
    ensures
        r@ == binary_text(size as nat),
{
    concat("Binary file - ", format_preview_size(size).as_str())
}

/// The title line of a metadata preview, bold in the directory color.
pub open spec fn title_style(theme: Theme) -> TextStyle {
    TextStyle { fg: Some(theme_color(theme.preview.dir_title_fg@)), bold: true, ..plain_style() }
}

/// The style of an error line of the preview.
pub open spec fn error_style(theme: Theme) -> TextStyle {
    TextStyle { fg: Some(theme_color(theme.preview.error_fg@)), ..plain_style() }
}

/// The lines of an image's preview: its name, then its format,
/// dimensions, color type and size, or the error and the size of the file.
pub open spec fn image_lines_of(name: Seq<char>, info: Result<ImageInfo, Seq<char>>, size: nat, theme: Theme) -> Seq<(Seq<char>, TextStyle)> {
    let head = seq![("\u{f1c5}  Image: "@ + name, title_style(theme)), (Seq::empty(), plain_style())];
    match info {
        Ok(i) => head + seq![
            ("  Format:     "@ + i.format@, plain_style()),
            ("  Dimensions: "@ + decimal(i.width as nat) + "x"@ + decimal(i.height as nat) + " px"@, plain_style()),
            ("  Color:      "@ + i.color_type@, plain_style()),
            ("  File size:  "@ + size_text(i.file_size as nat), plain_style()),
        ],
        Err(m) => head + seq![
            ("  Unable to read image: "@ + m, error_style(theme)),
            ("  File size: "@ + size_text(size), plain_style()),
        ],
    }
}

/// The lines of the preview of the image `name` of `size` bytes, given
/// what was read of it (see [`image_lines_of`]).
pub fn image_preview_lines(name: &str, info: &Result<ImageInfo, String>, size: u64, theme: &Theme) -> (r: Vec<StyledSpan>)
    requires
        color_ok(theme.preview.dir_title_fg@),
        info is Err ==> color_ok(theme.preview.error_fg@),
    ensures
        spans_view(r@) == image_lines_of(
            name@,
            match info {
                Ok(i) => Ok(*i),
                Err(m) => Err(m@),
            },
            size as nat,
            *theme,
        ),
{
    let title = TextStyle { fg: Some(parse_color(theme.preview.dir_title_fg.as_str())), bold: true, ..TextStyle::plain() };
    let mut out: Vec<StyledSpan> = Vec::new();
    out.push(StyledSpan { text: concat("\u{f1c5}  Image: ", name), style: title });
    out.push(StyledSpan { text: String::new(), style: TextStyle::plain() });
    match info {
        Ok(i) => {
            out.push(StyledSpan { text: concat("  Format:     ", i.format.as_str()), style: TextStyle::plain() });
            let d1 = concat("  Dimensions: ", decimal_string(i.width as u64).as_str());
            let d2 = concat(concat(d1.as_str(), "x").as_str(), decimal_string(i.height as u64).as_str());
            out.push(StyledSpan { text: concat(d2.as_str(), " px"), style: TextStyle::plain() });
            out.push(StyledSpan { text: concat("  Color:      ", i.color_type.as_str()), style: TextStyle::plain() });
            out.push(
                StyledSpan {
                    text: concat("  File size:  ", format_preview_size(i.file_size).as_str()),
                    style: TextStyle::plain(),
                },
            );
        },
        Err(m) => {
            let err = TextStyle { fg: Some(parse_color(theme.preview.error_fg.as_str())), ..TextStyle::plain() };
            out.push(StyledSpan { text: concat("  Unable to read image: ", m.as_str()), style: err });
            out.push(StyledSpan { text: concat("  File size: ", format_preview_size(size).as_str()), style: TextStyle::plain() });
        },
    }
    proof {
        reveal_strlit("");
        assert(""@ =~= Seq::<char>::empty());
        assert(spans_view(out@) =~= image_lines_of(
            name@,
            match info {
                Ok(i) => Ok(*i),
                Err(m) => Err(m@),
            },
            size as nat,
            *theme,
        ));
    }
    out
}

/// The line of an optional PDF field: shown when present and not empty.
pub open spec fn optional_line(label: Seq<char>, value: Option<String>) -> Seq<(Seq<char>, TextStyle)> {
    match value {
        Some(v) => if v@.len() > 0 {
            seq![(label + v@, plain_style())]
        } else {
            Seq::empty()
        },
        None => Seq::empty(),
    }
}

/// The lines of a PDF document's preview: its name, then its page count,
/// title and author (when set) and size, or the error and the size of the
/// file.
pub open spec fn pdf_lines_of(name: Seq<char>, info: Result<PdfInfo, Seq<char>>, size: nat, theme: Theme) -> Seq<(Seq<char>, TextStyle)> {
    let head = seq![("\u{f1c1}  PDF: "@ + name, title_style(theme)), (Seq::empty(), plain_style())];
    match info {
        Ok(i) => head + seq![("  Pages:     "@ + decimal(i.page_count as nat), plain_style())]
            + optional_line("  Title:     "@, i.title) + optional_line("  Author:    "@, i.author) + seq![
            ("  File size: "@ + size_text(i.file_size as nat), plain_style()),
        ],
        Err(m) => head + seq![
            ("  Unable to read PDF: "@ + m, error_style(theme)),
            ("  File size: "@ + size_text(size), plain_style()),
        ],
    }
}

/// Appends the line of an optional PDF field (see [`optional_line`]).
fn push_optional(out: &mut Vec<StyledSpan>, label: &str, value: &Option<String>)
    ensures
        spans_view(final(out)@) == spans_view(old(out)@) + optional_line(label@, *value),
{
    let ghost before = spans_view(out@);
    match value {
        Some(v) => {
            if !v.as_str().is_empty() {
                out.push(StyledSpan { text: concat(label, v.as_str()), style: TextStyle::plain() });
                proof {
                    assert(spans_view(out@) =~= before + seq![(label@ + v@, plain_style())]);
                }
            } else {
                proof {
                    assert(spans_view(out@) =~= before + Seq::<(Seq<char>, TextStyle)>::empty());
                }
            }
        },
        None => {
            proof {
                assert(spans_view(out@) =~= before + Seq::<(Seq<char>, TextStyle)>::empty());
            }
        },
    }
}

/// The lines of the preview of the PDF document `name` of `size` bytes,
/// given what was read of it (see [`pdf_lines_of`]).
pub fn pdf_preview_lines(name: &str, info: &Result<PdfInfo, String>, size: u64, theme: &Theme) -> (r: Vec<StyledSpan>)
    requires
        color_ok(theme.preview.dir_title_fg@),
        info is Err ==> color_ok(theme.preview.error_fg@),
    ensures
        spans_view(r@) == pdf_lines_of(
            name@,
            match info {
                Ok(i) => Ok(*i),
                Err(m) => Err(m@),
            },
            size as nat,
            *theme,
        ),
{
    let title = TextStyle { fg: Some(parse_color(theme.preview.dir_title_fg.as_str())), bold: true, ..TextStyle::plain() };
    let mut out: Vec<StyledSpan> = Vec::new();
    out.push(StyledSpan { text: concat("\u{f1c1}  PDF: ", name), style: title });
    out.push(StyledSpan { text: String::new(), style: TextStyle::plain() });
    let ghost head = spans_view(out@);
    match info {
        Ok(i) => {
            out.push(
                StyledSpan {
                    text: concat("  Pages:     ", decimal_string(i.page_count as u64).as_str()),
                    style: TextStyle::plain(),
                },
            );
            let ghost pages = spans_view(out@);
            push_optional(&mut out, "  Title:     ", &i.title);
            push_optional(&mut out, "  Author:    ", &i.author);
            let ghost opt = spans_view(out@);
            out.push(
                StyledSpan {
                    text: concat("  File size: ", format_preview_size(i.file_size).as_str()),
                    style: TextStyle::plain(),
                },
            );
            proof {
                reveal_strlit("");
                assert(""@ =~= Seq::<char>::empty());
                assert(pages =~= head + seq![("  Pages:     "@ + decimal(i.page_count as nat), plain_style())]);
                assert(spans_view(out@) =~= opt.push(("  File size: "@ + size_text(i.file_size as nat), plain_style())));
                assert(spans_view(out@) =~= pdf_lines_of(name@, Ok(*i), size as nat, *theme));
            }
        },
        Err(m) => {
            let err = TextStyle { fg: Some(parse_color(theme.preview.error_fg.as_str())), ..TextStyle::plain() };
            out.push(StyledSpan { text: concat("  Unable to read PDF: ", m.as_str()), style: err });
            out.push(StyledSpan { text: concat("  File size: ", format_preview_size(size).as_str()), style: TextStyle::plain() });
            proof {
                reveal_strlit("");
                assert(""@ =~= Seq::<char>::empty());
                assert(spans_view(out@) =~= pdf_lines_of(name@, Err(m@), size as nat, *theme));
            }
        },
    }
    out
}

/// The one-line summary under a shown image: its name in bold, then its
/// dimensions, format and size; or, when it could not be read, its name
/// and the size of the file.
pub open spec fn compact_metadata_of(name: Seq<char>, info: Result<ImageInfo, Seq<char>>, size: nat, theme: Theme) -> Seq<(Seq<char>, TextStyle)> {
    match info {
        Ok(i) => seq![
            (name + "  "@, title_style(theme)),
            (decimal(i.width as nat) + "x"@ + decimal(i.height as nat) + " | "@ + i.format@ + " | "@ + size_text(i.file_size as nat), plain_style()),
        ],
        Err(_) => seq![(name + "  "@ + size_text(size), plain_style())],
    }
}

/// The summary line under a shown image (see [`compact_metadata_of`]).
pub fn compact_metadata(name: &str, info: &Result<ImageInfo, String>, size: u64, theme: &Theme) -> (r: Vec<StyledSpan>)
    requires
        info is Ok ==> color_ok(theme.preview.dir_title_fg@),
    ensures
        spans_view(r@) == compact_metadata_of(
            name@,
            match info {
                Ok(i) => Ok(*i),
                Err(m) => Err(m@),
            },
            size as nat,
            *theme,
        ),
{
    let mut out: Vec<StyledSpan> = Vec::new();
    match info {
        Ok(i) => {
            let title = TextStyle { fg: Some(parse_color(theme.preview.dir_title_fg.as_str())), bold: true, ..TextStyle::plain() };
            out.push(StyledSpan { text: concat(name, "  "), style: title });
            let a = concat(concat(decimal_string(i.width as u64).as_str(), "x").as_str(), decimal_string(i.height as u64).as_str());
            let b = concat(concat(a.as_str(), " | ").as_str(), i.format.as_str());
            let c = concat(concat(b.as_str(), " | ").as_str(), format_preview_size(i.file_size).as_str());
            out.push(StyledSpan { text: c, style: TextStyle::plain() });
        },
        Err(_) => {
            let t = concat(concat(name, "  ").as_str(), format_preview_size(size).as_str());
            out.push(StyledSpan { text: t, style: TextStyle::plain() });
        },
    }
    proof {
        assert(spans_view(out@) =~= compact_metadata_of(
            name@,
            match info {
                Ok(i) => Ok(*i),
                Err(m) => Err(m@),
            },
            size as nat,
            *theme,
        ));
    }
    out
}

} // verus!

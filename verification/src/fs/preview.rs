//! File previews: text with escape sequences removed, directory trees,
//! and recognition of image and PDF files.
//!
//! The bytes and directory listings are read by the caller; this module
//! decides what the preview shows.

use vstd::prelude::*;
use crate::error::{CoreError, CoreResult};
use crate::text::{
    chars_of, lemma_seq_order_antisym, lemma_seq_order_eq, lemma_seq_order_trans, path_extension, seq_order,
    std_extension, std_lowercase, str_eq, str_order, string_from_chars, to_lowercase, to_owned_string,
};
use crate::sort::{lemma_stable_sort_by_keys, is_stable_sort_by, stable_sort, SortKey};

verus! {

/// The escape character that starts ANSI sequences.
pub open spec fn esc() -> char {
    '\x1b'
}

/// `char::is_control`: the Unicode control characters U+0000–U+001F and
/// U+007F–U+009F.
pub open spec fn is_control_spec(c: char) -> bool {
    (c as u32) <= 0x1f || (0x7f <= (c as u32) && (c as u32) <= 0x9f)
}

/// `char::is_ascii_alphabetic`: `A`–`Z` and `a`–`z`.
pub open spec fn is_ascii_alpha_spec(c: char) -> bool {
    (0x41 <= (c as u32) && (c as u32) <= 0x5a) || (0x61 <= (c as u32) && (c as u32) <= 0x7a)
}

/// Whether `c` is a control character.
pub fn is_control(c: char) -> (b: bool)
    ensures
        b == is_control_spec(c),
{
    let v = c as u32;
    v <= 0x1f || (0x7f <= v && v <= 0x9f)
}

/// Whether `c` is an ASCII letter.
pub fn is_ascii_alpha(c: char) -> (b: bool)
    ensures
        b == is_ascii_alpha_spec(c),
{
    let v = c as u32;
    (0x41 <= v && v <= 0x5a) || (0x61 <= v && v <= 0x7a)
}

/// Characters a CSI sequence takes after its `ESC [`: up to and including
/// the first ASCII letter, or all that is left.
pub open spec fn csi_len(t: Seq<char>) -> nat
    decreases t.len(),
{
    if t.len() == 0 {
        0
    } else if is_ascii_alpha_spec(t[0]) {
        1
    } else {
        1 + csi_len(t.skip(1))
    }
}

/// Characters an OSC sequence takes after its `ESC ]`: up to and including
/// a BEL, or an `ESC \` terminator, or all that is left.
pub open spec fn osc_len(t: Seq<char>) -> nat
    decreases t.len(),
{
    if t.len() == 0 {
        0
    } else if t[0] == '\x07' {
        1
    } else if t[0] == esc() && t.len() > 1 && t[1] == '\\' {
        2
    } else {
        1 + osc_len(t.skip(1))
    }
}

/// Text with ANSI escape sequences and control characters removed and each
/// tab replaced by four spaces. A lone `ESC` swallows the character after it.
pub open spec fn strip_ansi(s: Seq<char>) -> Seq<char>
    decreases s.len(),
{
    if s.len() == 0 {
        Seq::empty()
    } else if s[0] == esc() {
        if s.len() == 1 {
            Seq::empty()
        } else if s[1] == '[' {
            proof {
                lemma_csi_len_bound(s.skip(2));
            }
            strip_ansi(s.skip(2 + csi_len(s.skip(2)) as int))
        } else if s[1] == ']' {
            proof {
                lemma_osc_len_bound(s.skip(2));
            }
            strip_ansi(s.skip(2 + osc_len(s.skip(2)) as int))
        } else {
            strip_ansi(s.skip(2))
        }
    } else if s[0] == '\t' {
        seq![' ', ' ', ' ', ' '] + strip_ansi(s.skip(1))
    } else if is_control_spec(s[0]) {
        strip_ansi(s.skip(1))
    } else {
        seq![s[0]] + strip_ansi(s.skip(1))
    }
}

/// A CSI body never runs past the text.
pub proof fn lemma_csi_len_bound(t: Seq<char>)
    ensures
        csi_len(t) <= t.len(),
    decreases t.len(),
{
    if t.len() > 0 {
        lemma_csi_len_bound(t.skip(1));
    }
}

/// An OSC body never runs past the text.
pub proof fn lemma_osc_len_bound(t: Seq<char>)
    ensures
        osc_len(t) <= t.len(),
    decreases t.len(),
{
    if t.len() > 0 {
        lemma_osc_len_bound(t.skip(1));
    }
}

/// Whether no character of `s` is a control character.
pub open spec fn no_control(s: Seq<char>) -> bool {
    forall|k: int| 0 <= k < s.len() ==> !is_control_spec(#[trigger] s[k])
}

/// Stripping leaves no control character behind: escape sequences and
/// control characters are dropped and each tab becomes four spaces.
pub proof fn law_strip_leaves_no_control(s: Seq<char>)
    ensures
        no_control(strip_ansi(s)),
    decreases s.len(),
{
    let r = strip_ansi(s);
    if s.len() == 0 {
    } else if s[0] == esc() {
        if s.len() == 1 {
        } else if s[1] == '[' {
            lemma_csi_len_bound(s.skip(2));
            law_strip_leaves_no_control(s.skip(2 + csi_len(s.skip(2)) as int));
        } else if s[1] == ']' {
            lemma_osc_len_bound(s.skip(2));
            law_strip_leaves_no_control(s.skip(2 + osc_len(s.skip(2)) as int));
        } else {
            law_strip_leaves_no_control(s.skip(2));
        }
    } else {
        let rest = strip_ansi(s.skip(1));
        law_strip_leaves_no_control(s.skip(1));
        if s[0] == '\t' {
            assert forall|k: int| 0 <= k < r.len() implies !is_control_spec(#[trigger] r[k]) by {
                if k >= 4 {
                    assert(r[k] == rest[k - 4]);
                }
            }
        } else if !is_control_spec(s[0]) {
            assert forall|k: int| 0 <= k < r.len() implies !is_control_spec(#[trigger] r[k]) by {
                if k >= 1 {
                    assert(r[k] == rest[k - 1]);
                }
            }
        }
    }
}

/// Text without control characters comes through stripping unchanged.
pub proof fn law_strip_keeps_plain_text(s: Seq<char>)
    requires
        no_control(s),
    ensures
        strip_ansi(s) == s,
    decreases s.len(),
{
    if s.len() > 0 {
        assert(!is_control_spec(s[0]));
        assert(s[0] != esc());
        assert(s[0] != '\t');
        assert forall|k: int| 0 <= k < s.skip(1).len() implies !is_control_spec(#[trigger] s.skip(1)[k]) by {
            assert(s.skip(1)[k] == s[k + 1]);
        }
        law_strip_keeps_plain_text(s.skip(1));
        assert(seq![s[0]] + s.skip(1) =~= s);
    }
}

/// Stripping twice gives what stripping once gives.
pub proof fn law_strip_idempotent(s: Seq<char>)
    ensures
        strip_ansi(strip_ansi(s)) == strip_ansi(s),
{
    law_strip_leaves_no_control(s);
    law_strip_keeps_plain_text(strip_ansi(s));
}

/// Index just past the CSI sequence whose body starts at `start`.
fn csi_end(cs: &Vec<char>, start: usize) -> (e: usize)
    requires
        start <= cs@.len(),
    ensures
        e == start + csi_len(cs@.skip(start as int)),
        e <= cs@.len(),
{
    let mut j = start;
    while j < cs.len()
        invariant
            start <= j <= cs@.len(),
            start + csi_len(cs@.skip(start as int)) == j + csi_len(cs@.skip(j as int)),
        decreases cs.len() - j,
    {
        proof {
            assert(cs@.skip(j as int).skip(1) =~= cs@.skip(j + 1));
            assert(cs@.skip(j as int)[0] == cs@[j as int]);
        }
        if is_ascii_alpha(cs[j]) {
            return j + 1;
        }
        j = j + 1;
    }
    proof {
        assert(cs@.skip(j as int).len() == 0);
    }
    j
}

/// Index just past the OSC sequence whose body starts at `start`.
fn osc_end(cs: &Vec<char>, start: usize) -> (e: usize)
    requires
        start <= cs@.len(),
    ensures
        e == start + osc_len(cs@.skip(start as int)),
        e <= cs@.len(),
{
    let mut j = start;
    while j < cs.len()
        invariant
            start <= j <= cs@.len(),
            start + osc_len(cs@.skip(start as int)) == j + osc_len(cs@.skip(j as int)),
        decreases cs.len() - j,
    {
        proof {
            assert(cs@.skip(j as int).skip(1) =~= cs@.skip(j + 1));
            assert(cs@.skip(j as int)[0] == cs@[j as int]);
        }
        if cs[j] == '\x07' {
            return j + 1;
        }
        if cs[j] == '\x1b' && j + 1 < cs.len() && cs[j + 1] == '\\' {
            proof {
                assert(cs@.skip(j as int)[1] == cs@[j + 1]);
            }
            return j + 2;
        }
        j = j + 1;
    }
    proof {
        assert(cs@.skip(j as int).len() == 0);
    }
    j
}

/// Strips ANSI escape sequences and other control characters from a string.
///
/// Handles CSI sequences (`ESC [ ... letter`), OSC sequences
/// (`ESC ] ... BEL` or `ESC ] ... ESC \`), two-character escapes and stray
/// control characters; each tab becomes four spaces.
pub fn strip_ansi_escapes(s: &str) -> (r: String)
    ensures
        r@ == strip_ansi(s@),
{
    let cs = chars_of(s);
    let mut out: Vec<char> = Vec::new();
    let mut i: usize = 0;
    proof {
        assert(cs@.skip(0) =~= cs@);
        assert(out@ + cs@ =~= cs@);
    }
    while i < cs.len()
        invariant
            i <= cs@.len(),
            cs@ == s@,
            strip_ansi(cs@) == out@ + strip_ansi(cs@.skip(i as int)),
        decreases cs.len() - i,
    {
        let ghost rest = cs@.skip(i as int);
        let ghost before = out@;
        proof {
            assert(rest[0] == cs@[i as int]);
            assert(rest.skip(1) =~= cs@.skip(i + 1));
            if i + 1 < cs@.len() {
                assert(rest[1] == cs@[i + 1]);
                assert(rest.skip(2) =~= cs@.skip(i + 2));
            }
        }
        let c = cs[i];
        if c == '\x1b' {
            if i + 1 >= cs.len() {
                i = i + 1;
                proof {
                    assert(cs@.skip(i as int).len() == 0);
                }
            } else if cs[i + 1] == '[' {
                let e = csi_end(&cs, i + 2);
                proof {
                    assert(rest.skip(2 + csi_len(rest.skip(2)) as int) =~= cs@.skip(e as int));
                }
                i = e;
            } else if cs[i + 1] == ']' {
                let e = osc_end(&cs, i + 2);
                proof {
                    assert(rest.skip(2 + osc_len(rest.skip(2)) as int) =~= cs@.skip(e as int));
                }
                i = e;
            } else {
                i = i + 2;
            }
        } else if c == '\t' {
            out.push(' ');
            out.push(' ');
            out.push(' ');
            out.push(' ');
            i = i + 1;
            proof {
                assert(out@ =~= before + seq![' ', ' ', ' ', ' ']);
            }
        } else if is_control(c) {
            i = i + 1;
        } else {
            out.push(c);
            i = i + 1;
            proof {
                assert(out@ =~= before + seq![c]);
            }
        }
    }
    proof {
        assert(cs@.skip(i as int).len() == 0);
        assert(out@ + Seq::<char>::empty() =~= out@);
    }
    string_from_chars(out.as_slice())
}

/// A truncated text preview of a file.
#[derive(Debug, Clone, PartialEq, Eq)]
pub struct TextPreview {
    /// The preview lines (up to `max_lines`).
    pub lines: Vec<String>,
    /// Total number of lines in the file.
    pub total_lines: usize,
    /// `true` when the file has more lines than were kept.
    pub is_truncated: bool,
}

/// A single entry in a directory tree snapshot.
#[derive(Debug, Clone, PartialEq, Eq)]
pub struct TreeEntry {
    /// File or directory name.
    pub name: String,
    /// `true` when this entry is a directory.
    pub is_dir: bool,
    /// Nesting depth (0 = direct child of the root).
    pub depth: usize,
}

/// Metadata extracted from an image file.
#[derive(Debug, Clone, PartialEq, Eq)]
pub struct ImageInfo {
    pub width: u32,
    pub height: u32,
    pub format: String,
    pub color_type: String,
    pub file_size: u64,
}

/// Metadata extracted from a PDF file.
#[derive(Debug, Clone, PartialEq, Eq)]
pub struct PdfInfo {
    pub page_count: usize,
    pub title: Option<String>,
    pub author: Option<String>,
    pub file_size: u64,
}

/// Number of leading bytes inspected by binary detection.
pub const BINARY_CHECK_SIZE: usize = 8192;

/// Whether the first bytes of a file mark it as binary: they hold a NUL byte.
pub fn looks_binary(head: &[u8]) -> (b: bool)
    ensures
        b <==> head@.contains(0u8),
{
    let mut i: usize = 0;
    while i < head.len()
        invariant
            i <= head@.len(),
            forall|k: int| 0 <= k < i ==> head@[k] != 0u8,
        decreases head.len() - i,
    {
        if head[i] == 0 {
            proof {
                assert(head@[i as int] == 0u8);
            }
            return true;
        }
        i = i + 1;
    }
    false
}

/// The preview of a text given as its lines: the first `max_lines` lines
/// with escape sequences stripped, the line count, and whether lines were cut.
pub fn build_text_preview(lines: &[String], max_lines: usize) -> (p: TextPreview)
    ensures
        p.total_lines == lines@.len(),
        p.is_truncated <==> lines@.len() > max_lines,
        p.lines@.len() == if lines@.len() < max_lines { lines@.len() as int } else { max_lines as int },
        forall|k: int| 0 <= k < p.lines@.len() ==> (#[trigger] p.lines@[k])@ == strip_ansi(lines@[k]@),
{
    let mut kept: Vec<String> = Vec::new();
    let mut total: usize = 0;
    let mut truncated = false;
    for i in 0..lines.len()
        invariant
            total == i,
            truncated <==> i > max_lines,
            kept@.len() == if i < max_lines { i as int } else { max_lines as int },
            forall|k: int| 0 <= k < kept@.len() ==> (#[trigger] kept@[k])@ == strip_ansi(lines@[k]@),
    {
        total = total + 1;
        if kept.len() < max_lines {
            kept.push(strip_ansi_escapes(lines[i].as_str()));
        } else {
            truncated = true;
        }
    }
    TextPreview { lines: kept, total_lines: total, is_truncated: truncated }
}

/// Reads a text preview of the file at `path`, keeping at most `max_lines` lines.
///
/// `is_file` is whether `path` names a regular file, `head` its first
/// [`BINARY_CHECK_SIZE`] bytes and `lines` its lines, as read by the caller.
///
/// # Errors
///
/// - [`CoreError::NotFound`] if `path` does not point to a file.
/// - [`CoreError::InvalidName`] if the file is binary (NUL in its first bytes).
pub fn read_text_preview(
    path: &str,
    is_file: bool,
    head: &[u8],
    lines: &[String],
    max_lines: usize,
) -> (r: CoreResult<TextPreview>)
    ensures
        r is Ok <==> is_file && !head@.contains(0u8),
        !is_file ==> (r matches Err(CoreError::NotFound(p)) && p@ == path@),
        is_file && head@.contains(0u8) ==> (r matches Err(CoreError::InvalidName(m))
            && m@ == "binary file cannot be previewed as text"@),
        r matches Ok(p) ==> {
            &&& p.total_lines == lines@.len()
            &&& (p.is_truncated <==> lines@.len() > max_lines)
            &&& p.lines@.len() == if lines@.len() < max_lines { lines@.len() as int } else { max_lines as int }
            &&& forall|k: int| 0 <= k < p.lines@.len() ==> (#[trigger] p.lines@[k])@ == strip_ansi(lines@[k]@)
        },
{
    if !is_file {
        return Err(CoreError::NotFound(to_owned_string(path)));
    }
    if looks_binary(head) {
        return Err(CoreError::InvalidName(to_owned_string("binary file cannot be previewed as text")));
    }
    Ok(build_text_preview(lines, max_lines))
}

/// The lower-cased extension of a path, when it has one.
pub open spec fn lower_extension(path: Seq<char>) -> Option<Seq<char>> {
    match std_extension(path) {
        Some(e) => Some(std_lowercase(e)),
        None => None,
    }
}

/// Image file extensions recognised by [`is_image`].
pub open spec fn image_extensions() -> Seq<Seq<char>> {
    seq!["png"@, "jpg"@, "jpeg"@, "gif"@, "bmp"@, "webp"@, "ico"@, "tiff"@, "tif"@, "svg"@]
}

/// The extensions (lower-cased) of the files shown with the image preview:
/// PNG, JPEG, GIF, BMP, WebP, icon, TIFF and SVG files.
pub open spec fn is_image_extension(e: Seq<char>) -> bool {
    e == "png"@ || e == "jpg"@ || e == "jpeg"@ || e == "gif"@ || e == "bmp"@ || e == "webp"@ || e == "ico"@ || e == "tiff"@ || e == "tif"@ || e == "svg"@
}

/// The recognised image extensions are exactly these ten.
pub proof fn law_image_extensions(e: Seq<char>)
    ensures
        image_extensions().contains(e) <==> is_image_extension(e),
{
    let t = image_extensions();
    assert(t[0] == "png"@);
    assert(t[1] == "jpg"@);
    assert(t[2] == "jpeg"@);
    assert(t[3] == "gif"@);
    assert(t[4] == "bmp"@);
    assert(t[5] == "webp"@);
    assert(t[6] == "ico"@);
    assert(t[7] == "tiff"@);
    assert(t[8] == "tif"@);
    assert(t[9] == "svg"@);
    if is_image_extension(e) {
        if e == "png"@ { assert(t[0] == e); }
        if e == "jpg"@ { assert(t[1] == e); }
        if e == "jpeg"@ { assert(t[2] == e); }
        if e == "gif"@ { assert(t[3] == e); }
        if e == "bmp"@ { assert(t[4] == e); }
        if e == "webp"@ { assert(t[5] == e); }
        if e == "ico"@ { assert(t[6] == e); }
        if e == "tiff"@ { assert(t[7] == e); }
        if e == "tif"@ { assert(t[8] == e); }
        if e == "svg"@ { assert(t[9] == e); }
    }
}

/// Whether `ext` is one of `names`.
fn ext_in(ext: &str, names: &[&str]) -> (b: bool)
    ensures
        b <==> names@.map_values(|n: &str| n@).contains(ext@),
{
    let ghost nv = names@.map_values(|n: &str| n@);
    let mut i: usize = 0;
    while i < names.len()
        invariant
            i <= names@.len(),
            nv == names@.map_values(|n: &str| n@),
            forall|k: int| 0 <= k < i ==> nv[k] != ext@,
        decreases names.len() - i,
    {
        if str_eq(names[i], ext) {
            proof {
                assert(nv[i as int] == ext@);
            }
            return true;
        }
        i = i + 1;
    }
    false
}

/// Returns `true` if the path has a recognised image extension (any case).
pub fn is_image(path: &str) -> (b: bool)
    ensures
        b <==> (lower_extension(path@) matches Some(e) && image_extensions().contains(e)),
        b <==> (lower_extension(path@) matches Some(e) && is_image_extension(e)),
{
    proof {
        if let Some(e) = lower_extension(path@) {
            law_image_extensions(e);
        }
    }
    match path_extension(path) {
        Some(ext) => {
            let lower = to_lowercase(ext.as_str());
            let names: [&str; 10] = ["png", "jpg", "jpeg", "gif", "bmp", "webp", "ico", "tiff", "tif", "svg"];
            let r = ext_in(lower.as_str(), names.as_slice());
            proof {
                assert(names@.map_values(|n: &str| n@) =~= image_extensions());
            }
            r
        },
        None => false,
    }
}

/// Returns `true` if the path has a `.pdf` extension (any case).
pub fn is_pdf(path: &str) -> (b: bool)
    ensures
        b <==> lower_extension(path@) == Some("pdf"@),
{
    match path_extension(path) {
        Some(ext) => {
            let lower = to_lowercase(ext.as_str());
            str_eq(lower.as_str(), "pdf")
        },
        None => false,
    }
}

/// Returns `true` if the path has a markdown extension (`md`, `markdown`
/// or `mdx`, any case).
pub fn is_markdown(path: &str) -> (b: bool)
    ensures
        b <==> (lower_extension(path@) == Some("md"@) || lower_extension(path@) == Some("markdown"@)
            || lower_extension(path@) == Some("mdx"@)),
{
    match path_extension(path) {
        Some(ext) => {
            let lower = to_lowercase(ext.as_str());
            let l = lower.as_str();
            str_eq(l, "md") || str_eq(l, "markdown") || str_eq(l, "mdx")
        },
        None => false,
    }
}

} // verus!

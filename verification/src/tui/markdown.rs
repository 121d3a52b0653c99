//! Markdown for the preview panel: the events `pulldown-cmark` finds in
//! the text, turned into lines of styled text.

use pulldown_cmark::{Event, Options, Parser, Tag, TagEnd};
use vstd::prelude::*;
use crate::config::theme::ThemeColor;
use crate::text::{chars_of, index_of_char, lemma_index_of_char, lemma_index_of_char_bound, string_from_chars};
use crate::tui::style::{plain_style, spans_view, StyledSpan, TextStyle};

verus! {

/// The start tag of each event `pulldown-cmark` reads in `text` (all
/// extensions on): the heading level (1 to 6) for a heading, 10 emphasis,
/// 11 strong, 12 link, 13 code block, 14 block quote, 15 list, 16 list
/// item, 0 for any other event.
pub uninterp spec fn markdown_start_tags(text: Seq<char>) -> Seq<u8>;

/// The end tag of each event `pulldown-cmark` reads in `text`: 1 heading,
/// 2 emphasis, 3 strong, 4 link, 5 code block, 6 block quote, 7 list,
/// 8 list item, 9 paragraph, 0 for any other event.
pub uninterp spec fn markdown_end_tags(text: Seq<char>) -> Seq<u8>;

/// The leaf of each event `pulldown-cmark` reads in `text`: 1 and its text
/// for text, 2 and its text for inline code, 3 for a soft or hard line
/// break, 4 for a rule, 0 for any other event.
pub uninterp spec fn markdown_leaves(text: Seq<char>) -> Seq<(u8, Seq<char>)>;

/// Parses `text` with `pulldown_cmark::Parser::new_ext` (all options) and
/// gives each event's start tag as a number; the result is named
/// [`markdown_start_tags`] of the text.
#[verifier::external_body]
fn start_tags(text: &str) -> (r: Vec<u8>)
    ensures
        r@ == markdown_start_tags(text@),
{
    Parser::new_ext(text, Options::all()).map(|e| match e {
        Event::Start(Tag::Heading { level, .. }) => level as u8,
        Event::Start(Tag::Emphasis) => 10,
        Event::Start(Tag::Strong) => 11,
        Event::Start(Tag::Link { .. }) => 12,
        Event::Start(Tag::CodeBlock(_)) => 13,
        Event::Start(Tag::BlockQuote(_)) => 14,
        Event::Start(Tag::List(_)) => 15,
        Event::Start(Tag::Item) => 16,
        _ => 0,
    }).collect()
}

/// Parses `text` as [`start_tags`] does and gives each event's end tag as
/// a number; the result is named [`markdown_end_tags`] of the text.
#[verifier::external_body]
fn end_tags(text: &str) -> (r: Vec<u8>)
    ensures
        r@ == markdown_end_tags(text@),
{
    Parser::new_ext(text, Options::all()).map(|e| match e {
        Event::End(TagEnd::Heading(_)) => 1,
        Event::End(TagEnd::Emphasis) => 2,
        Event::End(TagEnd::Strong) => 3,
        Event::End(TagEnd::Link) => 4,
        Event::End(TagEnd::CodeBlock) => 5,
        Event::End(TagEnd::BlockQuote(_)) => 6,
        Event::End(TagEnd::List(_)) => 7,
        Event::End(TagEnd::Item) => 8,
        Event::End(TagEnd::Paragraph) => 9,
        _ => 0,
    }).collect()
}

/// Parses `text` as [`start_tags`] does and gives each event's leaf; the
/// result is named [`markdown_leaves`] of the text.
#[verifier::external_body]
fn leaves(text: &str) -> (r: Vec<(u8, String)>)
    ensures
        r@.map_values(|p: (u8, String)| (p.0, p.1@)) == markdown_leaves(text@),
{
    Parser::new_ext(text, Options::all()).map(|e| match e {
        Event::Text(t) => (1, t.into_string()),
        Event::Code(t) => (2, t.into_string()),
        Event::SoftBreak | Event::HardBreak => (3, String::new()),
        Event::Rule => (4, String::new()),
        _ => (0, String::new()),
    }).collect()
}

/// A markdown event, as far as the preview draws it.
pub enum MdEvent {
    StartHeading(u8),
    StartEmphasis,
    StartStrong,
    StartLink,
    StartCodeBlock,
    StartBlockQuote,
    StartList,
    StartItem,
    EndHeading,
    EndEmphasis,
    EndStrong,
    EndLink,
    EndCodeBlock,
    EndBlockQuote,
    EndList,
    EndItem,
    EndParagraph,
    Text(Seq<char>),
    Code(Seq<char>),
    Break,
    Rule,
    Other,
}

/// The event with start tag `s`, end tag `d` and leaf `l`.
pub open spec fn decode_event(s: u8, d: u8, l: (u8, Seq<char>)) -> MdEvent {
    if 1 <= s <= 6 {
        MdEvent::StartHeading(s)
    } else if s == 10 {
        MdEvent::StartEmphasis
    } else if s == 11 {
        MdEvent::StartStrong
    } else if s == 12 {
        MdEvent::StartLink
    } else if s == 13 {
        MdEvent::StartCodeBlock
    } else if s == 14 {
        MdEvent::StartBlockQuote
    } else if s == 15 {
        MdEvent::StartList
    } else if s == 16 {
        MdEvent::StartItem
    } else if d == 1 {
        MdEvent::EndHeading
    } else if d == 2 {
        MdEvent::EndEmphasis
    } else if d == 3 {
        MdEvent::EndStrong
    } else if d == 4 {
        MdEvent::EndLink
    } else if d == 5 {
        MdEvent::EndCodeBlock
    } else if d == 6 {
        MdEvent::EndBlockQuote
    } else if d == 7 {
        MdEvent::EndList
    } else if d == 8 {
        MdEvent::EndItem
    } else if d == 9 {
        MdEvent::EndParagraph
    } else if l.0 == 1 {
        MdEvent::Text(l.1)
    } else if l.0 == 2 {
        MdEvent::Code(l.1)
    } else if l.0 == 3 {
        MdEvent::Break
    } else if l.0 == 4 {
        MdEvent::Rule
    } else {
        MdEvent::Other
    }
}

/// The events described by the start tags `s`, end tags `d` and leaves
/// `l` (as far as all three reach).
pub open spec fn events_of(s: Seq<u8>, d: Seq<u8>, l: Seq<(u8, Seq<char>)>) -> Seq<MdEvent> {
    let n = if s.len() <= d.len() && s.len() <= l.len() {
        s.len()
    } else if d.len() <= l.len() {
        d.len()
    } else {
        l.len()
    };
    Seq::new(n, |i: int| decode_event(s[i], d[i], l[i]))
}

/// The events of `text`.
pub open spec fn markdown_events(text: Seq<char>) -> Seq<MdEvent> {
    events_of(markdown_start_tags(text), markdown_end_tags(text), markdown_leaves(text))
}

/// A styled piece of text, as a value.
pub type SpanView = (Seq<char>, TextStyle);

/// Where the renderer stands: the lines done, the pieces of the current
/// line, the style stack, whether it is inside a code block or a block
/// quote, and how deep the lists are nested.
pub struct MdState {
    pub lines: Seq<Seq<SpanView>>,
    pub spans: Seq<SpanView>,
    pub styles: Seq<TextStyle>,
    pub code: bool,
    pub quote: bool,
    pub depth: nat,
}

/// The state before the first event.
pub open spec fn md_start() -> MdState {
    MdState { lines: Seq::empty(), spans: Seq::empty(), styles: seq![plain_style()], code: false, quote: false, depth: 0 }
}

/// The style on top of the stack (the plain style when it is empty).
pub open spec fn top_style(styles: Seq<TextStyle>) -> TextStyle {
    if styles.len() > 0 {
        styles.last()
    } else {
        plain_style()
    }
}

/// The style of a heading: level 1 blue, level 2 cyan, deeper white; bold.
pub open spec fn heading_style(level: u8) -> TextStyle {
    let fg = if level == 1 {
        ThemeColor::Blue
    } else if level == 2 {
        ThemeColor::Cyan
    } else {
        ThemeColor::White
    };
    TextStyle { fg: Some(fg), bold: true, ..plain_style() }
}

/// Links: cyan, underlined.
pub open spec fn link_style() -> TextStyle {
    TextStyle { fg: Some(ThemeColor::Cyan), underlined: true, ..plain_style() }
}

/// Code: white on dark gray.
pub open spec fn code_style() -> TextStyle {
    TextStyle { fg: Some(ThemeColor::White), bg: Some(ThemeColor::DarkGray), ..plain_style() }
}

/// Quotes and rules: dark gray.
pub open spec fn dim_style() -> TextStyle {
    TextStyle { fg: Some(ThemeColor::DarkGray), ..plain_style() }
}

/// The current line moved to the lines done, when it has pieces.
pub open spec fn flushed(st: MdState) -> MdState {
    if st.spans.len() > 0 {
        MdState { lines: st.lines.push(st.spans), spans: Seq::empty(), ..st }
    } else {
        st
    }
}

/// The style stack without its top.
pub open spec fn popped(st: MdState) -> MdState {
    MdState { styles: if st.styles.len() > 0 { st.styles.drop_last() } else { st.styles }, ..st }
}

/// `n` times two spaces.
pub open spec fn indent(n: nat) -> Seq<char> {
    Seq::new(2 * n, |i: int| ' ')
}

/// The lines of `s` as `str::lines` yields them: split at `\n` (a `\r`
/// before it dropped), no empty line after a final `\n`.
pub open spec fn text_lines(s: Seq<char>) -> Seq<Seq<char>>
    decreases s.len(),
{
    if s.len() == 0 {
        Seq::empty()
    } else {
        proof {
            lemma_index_of_char_bound(s, '\n');
        }
        match index_of_char(s, '\n') {
            None => seq![s],
            Some(i) => {
                let line = s.take(i as int);
                let line = if line.len() > 0 && line.last() == '\r' { line.drop_last() } else { line };
                seq![line] + text_lines(s.skip(i as int + 1))
            },
        }
    }
}

/// The lines of a quoted text, each after a bar, each its own line.
pub open spec fn quoted(st: MdState, ls: Seq<Seq<char>>) -> MdState
    decreases ls.len(),
{
    if ls.len() == 0 {
        st
    } else {
        let s = quoted(st, ls.drop_last());
        flushed(MdState { spans: s.spans.push(("\u{2502} "@, dim_style())).push((ls.last(), dim_style())), ..s })
    }
}

/// The lines of a code block text, each its own line.
pub open spec fn coded(st: MdState, ls: Seq<Seq<char>>) -> MdState
    decreases ls.len(),
{
    if ls.len() == 0 {
        st
    } else {
        let s = coded(st, ls.drop_last());
        flushed(MdState { spans: s.spans.push((ls.last(), code_style())), ..s })
    }
}

/// The state after event `ev`.
pub open spec fn md_step(st: MdState, ev: MdEvent) -> MdState {
    match ev {
        MdEvent::StartHeading(l) => MdState { styles: st.styles.push(heading_style(l)), ..st },
        MdEvent::StartEmphasis => MdState {
            styles: st.styles.push(TextStyle { italic: true, ..top_style(st.styles) }),
            ..st
        },
        MdEvent::StartStrong => MdState {
            styles: st.styles.push(TextStyle { bold: true, ..top_style(st.styles) }),
            ..st
        },
        MdEvent::StartLink => MdState { styles: st.styles.push(link_style()), ..st },
        MdEvent::StartCodeBlock => MdState { code: true, ..flushed(st) },
        MdEvent::StartBlockQuote => MdState { quote: true, ..st },
        MdEvent::StartList => MdState { depth: st.depth + 1, ..st },
        MdEvent::StartItem => MdState { spans: st.spans.push((indent(st.depth) + "\u{2022} "@, plain_style())), ..st },
        MdEvent::EndHeading => flushed(popped(st)),
        MdEvent::EndEmphasis | MdEvent::EndStrong | MdEvent::EndLink => popped(st),
        MdEvent::EndCodeBlock => flushed(MdState { code: false, ..st }),
        MdEvent::EndBlockQuote => MdState { quote: false, ..st },
        MdEvent::EndList => MdState { depth: if st.depth > 0 { (st.depth - 1) as nat } else { 0 }, ..st },
        MdEvent::EndItem => flushed(st),
        MdEvent::EndParagraph => {
            let f = flushed(st);
            MdState { lines: f.lines.push(Seq::empty()), ..f }
        },
        MdEvent::Text(t) => if st.quote {
            quoted(st, text_lines(t))
        } else if st.code {
            coded(st, text_lines(t))
        } else {
            MdState { spans: st.spans.push((t, top_style(st.styles))), ..st }
        },
        MdEvent::Code(t) => MdState { spans: st.spans.push((t, code_style())), ..st },
        MdEvent::Break => flushed(st),
        MdEvent::Rule => {
            let f = flushed(st);
            MdState { lines: f.lines.push(seq![(Seq::new(40, |i: int| '\u{2500}'), dim_style())]), ..f }
        },
        MdEvent::Other => st,
    }
}

/// The state after the events `evs`.
pub open spec fn md_fold(evs: Seq<MdEvent>) -> MdState
    decreases evs.len(),
{
    if evs.len() == 0 {
        md_start()
    } else {
        md_step(md_fold(evs.drop_last()), evs.last())
    }
}

/// The styled lines markdown text `text` is drawn as.
pub open spec fn markdown_lines(text: Seq<char>) -> Seq<Seq<SpanView>> {
    flushed(md_fold(markdown_events(text))).lines
}

/// The views of lines of styled spans.
pub open spec fn lines_view(v: Seq<Vec<StyledSpan>>) -> Seq<Seq<SpanView>> {
    v.map_values(|l: Vec<StyledSpan>| spans_view(l@))
}

/// Splits `s` into lines as `str::lines` does.
pub fn split_lines(s: &str) -> (r: Vec<String>)
    ensures
        r@.map_values(|x: String| x@) == text_lines(s@),
{
    let cs = chars_of(s);
    let mut r: Vec<String> = Vec::new();
    let mut start: usize = 0;
    proof {
        assert(cs@.skip(0) =~= cs@);
    }
    while start < cs.len()
        invariant
            start <= cs@.len(),
            cs@ == s@,
            text_lines(s@) == r@.map_values(|x: String| x@) + text_lines(cs@.skip(start as int)),
        decreases cs.len() - start,
    {
        let ghost rest = cs@.skip(start as int);
        let mut e = start;
        while e < cs.len() && cs[e] != '\n'
            invariant
                start <= e <= cs@.len(),
                forall|j: int| start <= j < e ==> #[trigger] cs@[j] != '\n',
            decreases cs.len() - e,
        {
            e = e + 1;
        }
        proof {
            assert forall|j: int| 0 <= j < e - start implies #[trigger] rest[j] != '\n' by {
                assert(rest[j] == cs@[start + j]);
            }
            if e < cs.len() {
                assert(rest[e - start] == cs@[e as int]);
            }
            lemma_index_of_char(rest, '\n', e - start);
        }
        let mut piece: Vec<char> = Vec::new();
        let mut k = start;
        while k < e
            invariant
                start <= k <= e <= cs@.len(),
                piece@ == cs@.subrange(start as int, k as int),
            decreases e - k,
        {
            piece.push(cs[k]);
            k = k + 1;
            proof {
                assert(piece@ =~= cs@.subrange(start as int, k as int));
            }
        }
        let ghost before = r@.map_values(|x: String| x@);
        if e < cs.len() {
            if piece.len() > 0 && piece[piece.len() - 1] == '\r' {
                piece.pop();
            }
            r.push(string_from_chars(piece.as_slice()));
            proof {
                assert(rest.take(e - start) =~= cs@.subrange(start as int, e as int));
                assert(rest.skip(e - start + 1) =~= cs@.skip(e + 1));
                assert(r@.map_values(|x: String| x@) =~= before.push(piece@));
                assert(before + text_lines(rest) =~= before.push(piece@) + text_lines(cs@.skip(e + 1)));
            }
            start = e + 1;
        } else {
            r.push(string_from_chars(piece.as_slice()));
            proof {
                assert(rest =~= cs@.subrange(start as int, e as int));
                assert(r@.map_values(|x: String| x@) =~= before.push(piece@));
                assert(cs@.skip(e as int).len() == 0);
                assert(text_lines(cs@.skip(e as int)) =~= Seq::<Seq<char>>::empty());
                assert(before + text_lines(rest) =~= before.push(piece@) + text_lines(cs@.skip(e as int)));
            }
            start = e;
        }
    }
    proof {
        assert(cs@.skip(start as int).len() == 0);
        assert(r@.map_values(|x: String| x@) =~= r@.map_values(|x: String| x@) + text_lines(cs@.skip(start as int)));
    }
    r
}

/// The renderer's working state.
struct Renderer {
    lines: Vec<Vec<StyledSpan>>,
    spans: Vec<StyledSpan>,
    styles: Vec<TextStyle>,
    code: bool,
    quote: bool,
    depth: usize,
}

impl Renderer {
    spec fn state(&self) -> MdState {
        MdState {
            lines: lines_view(self.lines@),
            spans: spans_view(self.spans@),
            styles: self.styles@,
            code: self.code,
            quote: self.quote,
            depth: self.depth as nat,
        }
    }

    fn flush(&mut self)
        ensures
            final(self).state() == flushed(old(self).state()),
            final(self).depth == old(self).depth,
    {
        if self.spans.len() > 0 {
            let mut s: Vec<StyledSpan> = Vec::new();
            std::mem::swap(&mut s, &mut self.spans);
            let ghost before = self.lines@;
            self.lines.push(s);
            proof {
                assert(lines_view(self.lines@) =~= lines_view(before).push(spans_view(s@)));
                assert(spans_view(self.spans@) =~= Seq::<SpanView>::empty());
            }
        }
    }

    fn push_span(&mut self, text: String, style: TextStyle)
        ensures
            final(self).state() == (MdState { spans: old(self).state().spans.push((text@, style)), ..old(self).state() }),
            final(self).depth == old(self).depth,
    {
        let ghost before = self.spans@;
        self.spans.push(StyledSpan { text, style });
        proof {
            assert(spans_view(self.spans@) =~= spans_view(before).push((text@, style)));
        }
    }

    fn push_style(&mut self, style: TextStyle)
        ensures
            final(self).state() == (MdState { styles: old(self).state().styles.push(style), ..old(self).state() }),
            final(self).depth == old(self).depth,
    {
        self.styles.push(style);
    }

    fn pop_style(&mut self)
        ensures
            final(self).state() == popped(old(self).state()),
            final(self).depth == old(self).depth,
    {
        if self.styles.len() > 0 {
            self.styles.pop();
        }
    }

    fn top(&self) -> (r: TextStyle)
        ensures
            r == top_style(self.state().styles),
    {
        if self.styles.len() > 0 {
            self.styles[self.styles.len() - 1]
        } else {
            TextStyle::plain()
        }
    }

    /// Draws a text event inside a block quote or a code block.
    fn block_text(&mut self, t: &str)
        ensures
            final(self).state() == if old(self).quote {
                quoted(old(self).state(), text_lines(t@))
            } else {
                coded(old(self).state(), text_lines(t@))
            },
            final(self).depth == old(self).depth,
            final(self).quote == old(self).quote,
            final(self).code == old(self).code,
    {
        let ls = split_lines(t);
        let ghost lv = ls@.map_values(|x: String| x@);
        let ghost st0 = self.state();
        let quote = self.quote;
        let dim = TextStyle { fg: Some(ThemeColor::DarkGray), ..TextStyle::plain() };
        let code = TextStyle { fg: Some(ThemeColor::White), bg: Some(ThemeColor::DarkGray), ..TextStyle::plain() };
        for j in 0..ls.len()
            invariant
                lv == ls@.map_values(|x: String| x@),
                lv == text_lines(t@),
                dim == dim_style(),
                code == code_style(),
                quote == self.quote,
                quote == st0.quote,
                self.depth as nat == st0.depth,
                self.code == st0.code,
                self.state() == if quote { quoted(st0, lv.take(j as int)) } else { coded(st0, lv.take(j as int)) },
        {
            proof {
                assert(lv.take(j + 1).drop_last() =~= lv.take(j as int));
                assert(lv.take(j + 1).last() == ls@[j as int]@);
            }
            if quote {
                self.push_span(crate::text::to_owned_string("\u{2502} "), dim);
                self.push_span(ls[j].clone(), dim);
            } else {
                self.push_span(ls[j].clone(), code);
            }
            self.flush();
        }
        proof {
            assert(lv.take(lv.len() as int) =~= lv);
        }
    }

    /// The list item bullet after the indentation of the current depth.
    fn bullet(&self) -> (r: String)
        ensures
            r@ == indent(self.depth as nat) + "\u{2022} "@,
    {
        let mut cs: Vec<char> = Vec::new();
        let mut k: usize = 0;
        while k < self.depth
            invariant
                k <= self.depth,
                cs@ == indent(k as nat),
            decreases self.depth - k,
        {
            cs.push(' ');
            cs.push(' ');
            k = k + 1;
            proof {
                assert(cs@ =~= indent(k as nat));
            }
        }
        cs.push('\u{2022}');
        cs.push(' ');
        proof {
            reveal_strlit("\u{2022} ");
            assert(cs@ =~= indent(self.depth as nat) + "\u{2022} "@);
        }
        string_from_chars(cs.as_slice())
    }

    /// Takes in the event with start tag `s`, end tag `d` and leaf `(k, t)`.
    fn step(&mut self, s: u8, d: u8, k: u8, t: &String)
        requires
            old(self).depth < usize::MAX,
        ensures
            final(self).state() == md_step(old(self).state(), decode_event(s, d, (k, t@))),
            final(self).depth <= old(self).depth + 1,
    {
        if 1 <= s && s <= 6 {
            let st = if s == 1 {
                TextStyle { fg: Some(ThemeColor::Blue), bold: true, ..TextStyle::plain() }
            } else if s == 2 {
                TextStyle { fg: Some(ThemeColor::Cyan), bold: true, ..TextStyle::plain() }
            } else {
                TextStyle { fg: Some(ThemeColor::White), bold: true, ..TextStyle::plain() }
            };
            self.push_style(st);
        } else if s == 10 {
            let top = self.top();
            self.push_style(TextStyle { italic: true, ..top });
        } else if s == 11 {
            let top = self.top();
            self.push_style(TextStyle { bold: true, ..top });
        } else if s == 12 {
            self.push_style(TextStyle { fg: Some(ThemeColor::Cyan), underlined: true, ..TextStyle::plain() });
        } else if s == 13 {
            self.flush();
            self.code = true;
        } else if s == 14 {
            self.quote = true;
        } else if s == 15 {
            self.depth = self.depth + 1;
        } else if s == 16 {
            let b = self.bullet();
            self.push_span(b, TextStyle::plain());
        } else if d == 1 {
            self.pop_style();
            self.flush();
        } else if d == 2 || d == 3 || d == 4 {
            self.pop_style();
        } else if d == 5 {
            self.code = false;
            self.flush();
        } else if d == 6 {
            self.quote = false;
        } else if d == 7 {
            if self.depth > 0 {
                self.depth = self.depth - 1;
            }
        } else if d == 8 {
            self.flush();
        } else if d == 9 {
            self.flush();
            let blank: Vec<StyledSpan> = Vec::new();
            let ghost before = self.lines@;
            proof {
                assert(spans_view(blank@) =~= Seq::<SpanView>::empty());
            }
            self.lines.push(blank);
            proof {
                assert(lines_view(self.lines@) =~= lines_view(before).push(Seq::<SpanView>::empty()));
            }
        } else if k == 1 {
            if self.quote || self.code {
                self.block_text(t.as_str());
            } else {
                let top = self.top();
                self.push_span(t.clone(), top);
            }
        } else if k == 2 {
            self.push_span(
                t.clone(),
                TextStyle { fg: Some(ThemeColor::White), bg: Some(ThemeColor::DarkGray), ..TextStyle::plain() },
            );
        } else if k == 3 {
            self.flush();
        } else if k == 4 {
            self.flush();
            let mut cs: Vec<char> = Vec::new();
            for m in 0..40usize
                invariant
                    cs@ == Seq::new(m as nat, |i: int| '\u{2500}'),
            {
                cs.push('\u{2500}');
                proof {
                    assert(cs@ =~= Seq::new((m + 1) as nat, |i: int| '\u{2500}'));
                }
            }
            let rule = StyledSpan {
                text: string_from_chars(cs.as_slice()),
                style: TextStyle { fg: Some(ThemeColor::DarkGray), ..TextStyle::plain() },
            };
            let mut line: Vec<StyledSpan> = Vec::new();
            line.push(rule);
            let ghost before = self.lines@;
            proof {
                assert(spans_view(line@) =~= seq![(Seq::new(40, |i: int| '\u{2500}'), dim_style())]);
            }
            self.lines.push(line);
            proof {
                assert(lines_view(self.lines@) =~= lines_view(before).push(
                    seq![(Seq::new(40, |i: int| '\u{2500}'), dim_style())],
                ));
            }
        }
    }
}

/// Draws the markdown events given by their start tags `starts`, end tags
/// `ends` and leaves (see [`markdown_start_tags`] and the two names after
/// it) as styled lines.
pub fn render_events(starts: &[u8], ends: &[u8], leaves: &[(u8, String)]) -> (r: Vec<Vec<StyledSpan>>)
    ensures
        lines_view(r@) == flushed(
            md_fold(events_of(starts@, ends@, leaves@.map_values(|p: (u8, String)| (p.0, p.1@)))),
        ).lines,
{
    let ghost lv = leaves@.map_values(|p: (u8, String)| (p.0, p.1@));
    let ghost evs = events_of(starts@, ends@, lv);
    let n = if starts.len() <= ends.len() && starts.len() <= leaves.len() {
        starts.len()
    } else if ends.len() <= leaves.len() {
        ends.len()
    } else {
        leaves.len()
    };
    let mut styles: Vec<TextStyle> = Vec::new();
    styles.push(TextStyle::plain());
    let mut r = Renderer { lines: Vec::new(), spans: Vec::new(), styles, code: false, quote: false, depth: 0 };
    proof {
        assert(r.styles@ =~= seq![plain_style()]);
        assert(lines_view(r.lines@) =~= Seq::<Seq<SpanView>>::empty());
        assert(spans_view(r.spans@) =~= Seq::<SpanView>::empty());
        assert(r.state() == md_start());
        assert(evs.take(0) =~= Seq::<MdEvent>::empty());
    }
    for i in 0..n
        invariant
            n == evs.len(),
            n <= starts@.len() && n <= ends@.len() && n <= leaves@.len(),
            lv == leaves@.map_values(|p: (u8, String)| (p.0, p.1@)),
            evs == events_of(starts@, ends@, lv),
            r.depth <= i,
            r.state() == md_fold(evs.take(i as int)),
    {
        proof {
            assert(evs.take(i + 1).drop_last() =~= evs.take(i as int));
            assert(evs.take(i + 1).last() == decode_event(starts@[i as int], ends@[i as int], (leaves@[i as int].0, leaves@[i as int].1@)));
        }
        r.step(starts[i], ends[i], leaves[i].0, &leaves[i].1);
    }
    proof {
        assert(evs.take(n as int) =~= evs);
    }
    r.flush();
    r.lines
}

/// Renders markdown text as styled lines (see [`markdown_lines`]).
pub fn render_markdown(text: &str) -> (r: Vec<Vec<StyledSpan>>)
    ensures
        lines_view(r@) == markdown_lines(text@),
{
    let s = start_tags(text);
    let d = end_tags(text);
    let l = leaves(text);
    render_events(s.as_slice(), d.as_slice(), l.as_slice())
}

} // verus!

//! The lines of the command palette: each action's name, category,
//! description and the keys bound to it.

use vstd::prelude::*;
use crate::action::{category_label, Action, ActionDescriptor};
use crate::config::keymap::{keys_contain, Keymap};
use crate::config::theme::ThemeColor;
use crate::text::{chars_of, concat, seq_order, string_from_chars};
use crate::tui::style::{plain_style, spans_view, StyledSpan, TextStyle};

verus! {

/// `parts` joined with `sep` between them, as `[String]::join` gives it.
pub open spec fn joined(parts: Seq<Seq<char>>, sep: Seq<char>) -> Seq<char>
    decreases parts.len(),
{
    if parts.len() == 0 {
        Seq::empty()
    } else if parts.len() == 1 {
        parts[0]
    } else {
        joined(parts.drop_last(), sep) + sep + parts.last()
    }
}

/// The texts of `v`.
pub open spec fn string_views(v: Seq<String>) -> Seq<Seq<char>> {
    v.map_values(|s: String| s@)
}

/// Joins `parts` with `sep` between them.
pub fn join_texts(parts: &[String], sep: &str) -> (r: String)
    ensures
        r@ == joined(string_views(parts@), sep@),
{
    let ghost pv = string_views(parts@);
    let mut out: Vec<char> = Vec::new();
    let mut i: usize = 0;
    while i < parts.len()
        invariant
            i <= parts.len(),
            pv == string_views(parts@),
            out@ == joined(pv.take(i as int), sep@),
        decreases parts.len() - i,
    {
        proof {
            assert(pv.take(i + 1).drop_last() =~= pv.take(i as int));
        }
        if i > 0 {
            let mut s = chars_of(sep);
            out.append(&mut s);
        }
        let mut p = chars_of(parts[i].as_str());
        out.append(&mut p);
        proof {
            if i == 0 {
                assert(out@ =~= pv.take(1)[0]);
            } else {
                assert(out@ =~= joined(pv.take(i as int), sep@) + sep@ + pv[i as int]);
            }
        }
        i = i + 1;
    }
    proof {
        assert(pv.take(i as int) =~= pv);
    }
    string_from_chars(out.as_slice())
}

/// The style of an action's name: bold cyan under the cursor, else white.
pub open spec fn palette_name_style(selected: bool) -> TextStyle {
    if selected {
        TextStyle { fg: Some(ThemeColor::Cyan), bold: true, ..plain_style() }
    } else {
        TextStyle { fg: Some(ThemeColor::White), ..plain_style() }
    }
}

/// The line of an action in the palette: the cursor marker and the name,
/// the category in brackets, the description, and the keys bound to it
/// (in parentheses, when there are any).
pub open spec fn palette_line_of(
    name: Seq<char>,
    description: Seq<char>,
    category: Seq<char>,
    keys: Seq<Seq<char>>,
    selected: bool,
) -> Seq<(Seq<char>, TextStyle)> {
    let ns = palette_name_style(selected);
    let marker = if selected {
        "> "@
    } else {
        "  "@
    };
    let base = seq![
        (marker, ns),
        (name, ns),
        ("  ["@ + category + "]"@, TextStyle { fg: Some(ThemeColor::DarkGray), ..plain_style() }),
        ("  "@ + description, TextStyle { fg: Some(ThemeColor::Gray), ..plain_style() }),
    ];
    let hint = joined(keys, ", "@);
    if hint.len() == 0 {
        base
    } else {
        base.push(("  ("@ + hint + ")"@, TextStyle { fg: Some(ThemeColor::Yellow), ..plain_style() }))
    }
}

/// `ks` are the keys bound to `action` in `keymap`, in ascending order
/// (none when no key is bound).
pub open spec fn bound_keys(keymap: Map<Seq<char>, Action>, action: Action, ks: Seq<String>) -> bool {
    &&& forall|i: int, j: int| 0 <= i < j < ks.len() ==> seq_order((#[trigger] ks[i])@, (#[trigger] ks[j])@) < 0
    &&& forall|k: Seq<char>| (keymap.contains_key(k) && keymap[k] == action) <==> keys_contain(ks, k)
}

/// The line of `desc` in the palette (see [`palette_line_of`]).
pub fn palette_line(desc: &ActionDescriptor, keymap: &Keymap, selected: bool) -> (r: Vec<StyledSpan>)
    requires
        keymap.wf(),
    ensures
        exists|ks: Seq<String>|
            {
                &&& bound_keys(keymap@, desc.action, ks)
                &&& spans_view(r@) == palette_line_of(
                    desc.name@,
                    desc.description@,
                    category_label(desc.category),
                    string_views(ks),
                    selected,
                )
            },
{
    let ns = if selected {
        TextStyle { fg: Some(ThemeColor::Cyan), bold: true, ..TextStyle::plain() }
    } else {
        TextStyle { fg: Some(ThemeColor::White), ..TextStyle::plain() }
    };
    let marker = if selected {
        "> "
    } else {
        "  "
    };
    let keys = match keymap.keys_for_action(desc.action) {
        Some(ks) => ks,
        None => Vec::new(),
    };
    let ghost kv = keys@;
    let hint = join_texts(keys.as_slice(), ", ");
    let cat = concat(concat("  [", desc.category.label()).as_str(), "]");
    let mut out: Vec<StyledSpan> = Vec::new();
    out.push(StyledSpan { text: marker.to_owned(), style: ns });
    out.push(StyledSpan { text: desc.name.to_owned(), style: ns });
    out.push(StyledSpan { text: cat, style: TextStyle { fg: Some(ThemeColor::DarkGray), ..TextStyle::plain() } });
    out.push(
        StyledSpan {
            text: concat("  ", desc.description),
            style: TextStyle { fg: Some(ThemeColor::Gray), ..TextStyle::plain() },
        },
    );
    let ghost base = spans_view(out@);
    let hint_chars = chars_of(hint.as_str());
    if hint_chars.len() > 0 {
        let t = concat(concat("  (", hint.as_str()).as_str(), ")");
        out.push(StyledSpan { text: t, style: TextStyle { fg: Some(ThemeColor::Yellow), ..TextStyle::plain() } });
        proof {
            assert(spans_view(out@) =~= base.push(("  ("@ + hint@ + ")"@, TextStyle { fg: Some(ThemeColor::Yellow), ..plain_style() })));
        }
    }
    proof {
        reveal_strlit("> ");
        reveal_strlit("  ");
        reveal_strlit("  [");
        reveal_strlit("]");
        reveal_strlit("  (");
        reveal_strlit(")");
        assert(base =~= seq![
            (if selected { "> "@ } else { "  "@ }, palette_name_style(selected)),
            (desc.name@, palette_name_style(selected)),
            ("  ["@ + category_label(desc.category) + "]"@, TextStyle { fg: Some(ThemeColor::DarkGray), ..plain_style() }),
            ("  "@ + desc.description@, TextStyle { fg: Some(ThemeColor::Gray), ..plain_style() }),
        ]);
        if kv.len() == 0 {
            assert forall|k: Seq<char>| (keymap@.contains_key(k) && keymap@[k] == desc.action) <==> keys_contain(kv, k) by {}
        }
        assert(bound_keys(keymap@, desc.action, kv));
    }
    out
}

} // verus!

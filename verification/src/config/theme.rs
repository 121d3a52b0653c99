//! Theme colors.
//!
//! Colors are stored as strings (e.g. `"blue"`, `"#ff5500"`) and turned into
//! a [`ThemeColor`] at render time by [`parse_color`].

use vstd::prelude::*;
use crate::text::{std_lowercase, str_eq, to_lowercase, to_owned_string};

verus! {
/// File list panel colors.
#[derive(Debug, Clone)]
pub struct PanelTheme {
    pub dir_fg: String,
    pub symlink_fg: String,
    pub hidden_fg: String,
    pub selected_fg: String,
}

impl PanelTheme {
    /// The colors that a theme file leaves unset take these values.
    pub open spec fn is_default(&self) -> bool {
        &&& self.dir_fg@ == "blue"@
        &&& self.symlink_fg@ == "cyan"@
        &&& self.hidden_fg@ == "dark_gray"@
        &&& self.selected_fg@ == "yellow"@
    }
}

impl Default for PanelTheme {
    fn default() -> (t: Self)
        ensures
            t.is_default(),
    {
        PanelTheme {
            dir_fg: to_owned_string("blue"),
            symlink_fg: to_owned_string("cyan"),
            hidden_fg: to_owned_string("dark_gray"),
            selected_fg: to_owned_string("yellow"),
        }
    }
}

/// Status bar colors.
#[derive(Debug, Clone)]
pub struct StatusBarTheme {
    pub bg: String,
    pub position_fg: String,
    pub hidden_fg: String,
    pub message_fg: String,
    pub branch_clean_fg: String,
    pub branch_dirty_fg: String,
}

impl StatusBarTheme {
    /// The colors that a theme file leaves unset take these values.
    pub open spec fn is_default(&self) -> bool {
        &&& self.bg@ == "white"@
        &&& self.position_fg@ == "black"@
        &&& self.hidden_fg@ == "yellow"@
        &&& self.message_fg@ == "magenta"@
        &&& self.branch_clean_fg@ == "green"@
        &&& self.branch_dirty_fg@ == "yellow"@
    }
}

impl Default for StatusBarTheme {
    fn default() -> (t: Self)
        ensures
            t.is_default(),
    {
        StatusBarTheme {
            bg: to_owned_string("white"),
            position_fg: to_owned_string("black"),
            hidden_fg: to_owned_string("yellow"),
            message_fg: to_owned_string("magenta"),
            branch_clean_fg: to_owned_string("green"),
            branch_dirty_fg: to_owned_string("yellow"),
        }
    }
}

/// Breadcrumb path colors.
#[derive(Debug, Clone)]
pub struct BreadcrumbTheme {
    pub bg: String,
    pub home_fg: String,
    pub separator_fg: String,
    pub component_fg: String,
}

impl BreadcrumbTheme {
    /// The colors that a theme file leaves unset take these values.
    pub open spec fn is_default(&self) -> bool {
        &&& self.bg@ == "dark_gray"@
        &&& self.home_fg@ == "cyan"@
        &&& self.separator_fg@ == "dark_gray"@
        &&& self.component_fg@ == "white"@
    }
}

impl Default for BreadcrumbTheme {
    fn default() -> (t: Self)
        ensures
            t.is_default(),
    {
        BreadcrumbTheme {
            bg: to_owned_string("dark_gray"),
            home_fg: to_owned_string("cyan"),
            separator_fg: to_owned_string("dark_gray"),
            component_fg: to_owned_string("white"),
        }
    }
}

/// Preview panel colors.
#[derive(Debug, Clone)]
pub struct PreviewTheme {
    pub border_fg: String,
    pub line_number_fg: String,
    pub dir_title_fg: String,
    pub error_fg: String,
    pub truncation_fg: String,
    pub syntax_theme: String,
}

impl PreviewTheme {
    /// The colors that a theme file leaves unset take these values.
    pub open spec fn is_default(&self) -> bool {
        &&& self.border_fg@ == "dark_gray"@
        &&& self.line_number_fg@ == "dark_gray"@
        &&& self.dir_title_fg@ == "blue"@
        &&& self.error_fg@ == "red"@
        &&& self.truncation_fg@ == "yellow"@
        &&& self.syntax_theme@ == "base16-eighties.dark"@
    }
}

impl Default for PreviewTheme {
    fn default() -> (t: Self)
        ensures
            t.is_default(),
    {
        PreviewTheme {
            border_fg: to_owned_string("dark_gray"),
            line_number_fg: to_owned_string("dark_gray"),
            dir_title_fg: to_owned_string("blue"),
            error_fg: to_owned_string("red"),
            truncation_fg: to_owned_string("yellow"),
            syntax_theme: to_owned_string("base16-eighties.dark"),
        }
    }
}

/// Popup/dialog colors.
#[derive(Debug, Clone)]
pub struct PopupTheme {
    pub border_fg: String,
}

impl PopupTheme {
    /// The colors that a theme file leaves unset take these values.
    pub open spec fn is_default(&self) -> bool {
        &&& self.border_fg@ == "yellow"@
    }
}

impl Default for PopupTheme {
    fn default() -> (t: Self)
        ensures
            t.is_default(),
    {
        PopupTheme {
            border_fg: to_owned_string("yellow"),
        }
    }
}

/// Git status indicator colors.
#[derive(Debug, Clone)]
pub struct GitTheme {
    pub modified_fg: String,
    pub added_fg: String,
    pub deleted_fg: String,
    pub renamed_fg: String,
    pub untracked_fg: String,
    pub ignored_fg: String,
}

impl GitTheme {
    /// The colors that a theme file leaves unset take these values.
    pub open spec fn is_default(&self) -> bool {
        &&& self.modified_fg@ == "yellow"@
        &&& self.added_fg@ == "green"@
        &&& self.deleted_fg@ == "red"@
        &&& self.renamed_fg@ == "blue"@
        &&& self.untracked_fg@ == "gray"@
        &&& self.ignored_fg@ == "dark_gray"@
    }
}

impl Default for GitTheme {
    fn default() -> (t: Self)
        ensures
            t.is_default(),
    {
        GitTheme {
            modified_fg: to_owned_string("yellow"),
            added_fg: to_owned_string("green"),
            deleted_fg: to_owned_string("red"),
            renamed_fg: to_owned_string("blue"),
            untracked_fg: to_owned_string("gray"),
            ignored_fg: to_owned_string("dark_gray"),
        }
    }
}

/// Terminal panel colors.
#[derive(Debug, Clone)]
pub struct TerminalTheme {
    pub border_fg: String,
    pub title_fg: String,
}

impl TerminalTheme {
    /// The colors that a theme file leaves unset take these values.
    pub open spec fn is_default(&self) -> bool {
        &&& self.border_fg@ == "dark_gray"@
        &&& self.title_fg@ == "green"@
    }
}

impl Default for TerminalTheme {
    fn default() -> (t: Self)
        ensures
            t.is_default(),
    {
        TerminalTheme {
            border_fg: to_owned_string("dark_gray"),
            title_fg: to_owned_string("green"),
        }
    }
}

/// Complete theme configuration with per-component color groups.
#[derive(Debug, Clone)]
pub struct Theme {
    pub panel: PanelTheme,
    pub statusbar: StatusBarTheme,
    pub breadcrumb: BreadcrumbTheme,
    pub preview: PreviewTheme,
    pub popup: PopupTheme,
    pub git: GitTheme,
    pub terminal: TerminalTheme,
}

impl Theme {
    /// Every color group holds its default colors.
    pub open spec fn is_default(&self) -> bool {
        &&& self.panel.is_default()
        &&& self.statusbar.is_default()
        &&& self.breadcrumb.is_default()
        &&& self.preview.is_default()
        &&& self.popup.is_default()
        &&& self.git.is_default()
        &&& self.terminal.is_default()
    }
}

impl Default for Theme {
    fn default() -> (t: Self)
        ensures
            t.is_default(),
    {
        Theme {
            panel: PanelTheme::default(),
            statusbar: StatusBarTheme::default(),
            breadcrumb: BreadcrumbTheme::default(),
            preview: PreviewTheme::default(),
            popup: PopupTheme::default(),
            git: GitTheme::default(),
            terminal: TerminalTheme::default(),
        }
    }
}

/// A terminal color named by a theme.
#[derive(Debug, Clone, Copy, PartialEq, Eq, Structural)]
pub enum ThemeColor {
    Black,
    Red,
    Green,
    Yellow,
    Blue,
    Magenta,
    Cyan,
    Gray,
    DarkGray,
    LightRed,
    LightGreen,
    LightYellow,
    LightBlue,
    LightMagenta,
    LightCyan,
    White,
    Reset,
    Rgb(u8, u8, u8),
}

/// Color names a theme may use (lower-case).
pub open spec fn color_names() -> Seq<(Seq<char>, ThemeColor)> {
    seq![
        ("black"@, ThemeColor::Black),
        ("red"@, ThemeColor::Red),
        ("green"@, ThemeColor::Green),
        ("yellow"@, ThemeColor::Yellow),
        ("blue"@, ThemeColor::Blue),
        ("magenta"@, ThemeColor::Magenta),
        ("cyan"@, ThemeColor::Cyan),
        ("gray"@, ThemeColor::Gray),
        ("grey"@, ThemeColor::Gray),
        ("dark_gray"@, ThemeColor::DarkGray),
        ("dark_grey"@, ThemeColor::DarkGray),
        ("darkgray"@, ThemeColor::DarkGray),
        ("darkgrey"@, ThemeColor::DarkGray),
        ("light_red"@, ThemeColor::LightRed),
        ("lightred"@, ThemeColor::LightRed),
        ("light_green"@, ThemeColor::LightGreen),
        ("lightgreen"@, ThemeColor::LightGreen),
        ("light_yellow"@, ThemeColor::LightYellow),
        ("lightyellow"@, ThemeColor::LightYellow),
        ("light_blue"@, ThemeColor::LightBlue),
        ("lightblue"@, ThemeColor::LightBlue),
        ("light_magenta"@, ThemeColor::LightMagenta),
        ("lightmagenta"@, ThemeColor::LightMagenta),
        ("light_cyan"@, ThemeColor::LightCyan),
        ("lightcyan"@, ThemeColor::LightCyan),
        ("white"@, ThemeColor::White),
        ("reset"@, ThemeColor::Reset),
    ]
}

/// The color of the first entry of `table` named `name`, if any.
pub open spec fn named_color(table: Seq<(Seq<char>, ThemeColor)>, name: Seq<char>) -> Option<ThemeColor>
    decreases table.len(),
{
    if table.len() == 0 {
        None
    } else if table[0].0 == name {
        Some(table[0].1)
    } else {
        named_color(table.skip(1), name)
    }
}

/// Whether byte `b` is a hexadecimal digit.
pub open spec fn is_hex_digit(b: u8) -> bool {
    (48 <= b <= 57) || (65 <= b <= 70) || (97 <= b <= 102)
}

/// The value of hexadecimal digit `b`.
pub open spec fn hex_value(b: u8) -> u8 {
    if 48 <= b <= 57 {
        (b - 48) as u8
    } else if 65 <= b <= 70 {
        (b - 55) as u8
    } else {
        (b - 87) as u8
    }
}

/// `u8::from_str_radix(text, 16).unwrap_or(0)` for a two-byte text: an
/// optional `+` sign before one digit, or two digits; anything else is `0`.
pub open spec fn hex_pair(b0: u8, b1: u8) -> u8 {
    if b0 == 43 {
        if is_hex_digit(b1) {
            hex_value(b1)
        } else {
            0
        }
    } else if is_hex_digit(b0) && is_hex_digit(b1) {
        (16 * hex_value(b0) + hex_value(b1)) as u8
    } else {
        0
    }
}

/// The byte of the lower-case hexadecimal digit for `v` (`0`–`9`, `a`–`f`).
pub open spec fn lower_hex_byte(v: int) -> u8 {
    if v < 10 {
        (48 + v) as u8
    } else {
        (87 + v) as u8
    }
}

/// The byte of the upper-case hexadecimal digit for `v` (`0`–`9`, `A`–`F`).
pub open spec fn upper_hex_byte(v: int) -> u8 {
    if v < 10 {
        (48 + v) as u8
    } else {
        (55 + v) as u8
    }
}

/// A pair of hexadecimal digits, in either case, reads as the number it
/// writes: `16 * high + low`. So every byte value written as two hex digits
/// is read back unchanged.
pub proof fn law_hex_pair_reads_digits(high: int, low: int)
    requires
        0 <= high < 16,
        0 <= low < 16,
    ensures
        hex_pair(lower_hex_byte(high), lower_hex_byte(low)) == 16 * high + low,
        hex_pair(upper_hex_byte(high), upper_hex_byte(low)) == 16 * high + low,
        hex_pair(lower_hex_byte(high), upper_hex_byte(low)) == 16 * high + low,
        hex_pair(upper_hex_byte(high), lower_hex_byte(low)) == 16 * high + low,
{
}

/// Every byte value, written as two lower-case hex digits, reads back as
/// itself.
pub proof fn law_hex_pair_round_trip(v: u8)
    ensures
        hex_pair(lower_hex_byte(v as int / 16), lower_hex_byte(v as int % 16)) == v,
        hex_pair(upper_hex_byte(v as int / 16), upper_hex_byte(v as int % 16)) == v,
{
    law_hex_pair_reads_digits(v as int / 16, v as int % 16);
}

/// The character of the lower-case hexadecimal digit for `v`.
pub open spec fn lower_hex_char(v: int) -> char {
    lower_hex_byte(v) as char
}

/// `#rrggbb`: the color `(r, g, b)` written in lower-case hexadecimal.
pub open spec fn hex_color_text(r: u8, g: u8, b: u8) -> Seq<char> {
    seq![
        '#',
        lower_hex_char(r as int / 16),
        lower_hex_char(r as int % 16),
        lower_hex_char(g as int / 16),
        lower_hex_char(g as int % 16),
        lower_hex_char(b as int / 16),
        lower_hex_char(b as int % 16),
    ]
}

/// A table none of whose names is `name` names no color.
proof fn lemma_named_color_none(table: Seq<(Seq<char>, ThemeColor)>, name: Seq<char>)
    requires
        forall|i: int| 0 <= i < table.len() ==> (#[trigger] table[i]).0 != name,
    ensures
        named_color(table, name) is None,
    decreases table.len(),
{
    if table.len() > 0 {
        assert(table[0].0 != name);
        assert forall|i: int| 0 <= i < table.skip(1).len() implies (#[trigger] table.skip(1)[i]).0 != name by {
            assert(table.skip(1)[i] == table[i + 1]);
        }
        lemma_named_color_none(table.skip(1), name);
    }
}

/// No color name starts with `#`.
proof fn lemma_names_not_hex()
    ensures
        forall|i: int| 0 <= i < color_names().len() ==> (#[trigger] color_names()[i]).0.len() > 0
            && color_names()[i].0[0] != '#',
{
    reveal_strlit("black");
    reveal_strlit("red");
    reveal_strlit("green");
    reveal_strlit("yellow");
    reveal_strlit("blue");
    reveal_strlit("magenta");
    reveal_strlit("cyan");
    reveal_strlit("gray");
    reveal_strlit("grey");
    reveal_strlit("dark_gray");
    reveal_strlit("dark_grey");
    reveal_strlit("darkgray");
    reveal_strlit("darkgrey");
    reveal_strlit("light_red");
    reveal_strlit("lightred");
    reveal_strlit("light_green");
    reveal_strlit("lightgreen");
    reveal_strlit("light_yellow");
    reveal_strlit("lightyellow");
    reveal_strlit("light_blue");
    reveal_strlit("lightblue");
    reveal_strlit("light_magenta");
    reveal_strlit("lightmagenta");
    reveal_strlit("light_cyan");
    reveal_strlit("lightcyan");
    reveal_strlit("white");
    reveal_strlit("reset");
    let t = color_names();
    assert forall|i: int| 0 <= i < t.len() implies (#[trigger] t[i]).0.len() > 0 && t[i].0[0] != '#' by {
        if i == 0 {
            assert(t[0].0 == "black"@);
        } else if i == 1 {
            assert(t[1].0 == "red"@);
        } else if i == 2 {
            assert(t[2].0 == "green"@);
        } else if i == 3 {
            assert(t[3].0 == "yellow"@);
        } else if i == 4 {
            assert(t[4].0 == "blue"@);
        } else if i == 5 {
            assert(t[5].0 == "magenta"@);
        } else if i == 6 {
            assert(t[6].0 == "cyan"@);
        } else if i == 7 {
            assert(t[7].0 == "gray"@);
        } else if i == 8 {
            assert(t[8].0 == "grey"@);
        } else if i == 9 {
            assert(t[9].0 == "dark_gray"@);
        } else if i == 10 {
            assert(t[10].0 == "dark_grey"@);
        } else if i == 11 {
            assert(t[11].0 == "darkgray"@);
        } else if i == 12 {
            assert(t[12].0 == "darkgrey"@);
        } else if i == 13 {
            assert(t[13].0 == "light_red"@);
        } else if i == 14 {
            assert(t[14].0 == "lightred"@);
        } else if i == 15 {
            assert(t[15].0 == "light_green"@);
        } else if i == 16 {
            assert(t[16].0 == "lightgreen"@);
        } else if i == 17 {
            assert(t[17].0 == "light_yellow"@);
        } else if i == 18 {
            assert(t[18].0 == "lightyellow"@);
        } else if i == 19 {
            assert(t[19].0 == "light_blue"@);
        } else if i == 20 {
            assert(t[20].0 == "lightblue"@);
        } else if i == 21 {
            assert(t[21].0 == "light_magenta"@);
        } else if i == 22 {
            assert(t[22].0 == "lightmagenta"@);
        } else if i == 23 {
            assert(t[23].0 == "light_cyan"@);
        } else if i == 24 {
            assert(t[24].0 == "lightcyan"@);
        } else if i == 25 {
            assert(t[25].0 == "white"@);
        } else if i == 26 {
            assert(t[26].0 == "reset"@);
        }
    }
}

/// Every color written as `#rrggbb` in lower-case hexadecimal reads back as
/// that color.
pub proof fn law_hex_color_round_trip(r: u8, g: u8, b: u8)
    ensures
        color_of_lower(hex_color_text(r, g, b)) == ThemeColor::Rgb(r, g, b),
{
    let l = hex_color_text(r, g, b);
    lemma_names_not_hex();
    assert forall|i: int| 0 <= i < color_names().len() implies (#[trigger] color_names()[i]).0 != l by {
        assert(l[0] == '#');
        if color_names()[i].0 == l {
            assert(color_names()[i].0[0] == l[0]);
        }
    }
    lemma_named_color_none(color_names(), l);
    assert(vstd::utf8::is_ascii_chars(l));
    vstd::utf8::is_ascii_chars_encode_utf8(l);
    let bytes = vstd::utf8::encode_utf8(l);
    assert(bytes[1] == lower_hex_byte(r as int / 16));
    assert(bytes[2] == lower_hex_byte(r as int % 16));
    assert(bytes[3] == lower_hex_byte(g as int / 16));
    assert(bytes[4] == lower_hex_byte(g as int % 16));
    assert(bytes[5] == lower_hex_byte(b as int / 16));
    assert(bytes[6] == lower_hex_byte(b as int % 16));
    law_hex_pair_round_trip(r);
    law_hex_pair_round_trip(g);
    law_hex_pair_round_trip(b);
}

/// The first entry of `table` named `name` gives its color.
proof fn lemma_named_color_first(table: Seq<(Seq<char>, ThemeColor)>, name: Seq<char>, k: int)
    requires
        0 <= k < table.len(),
        table[k].0 == name,
        forall|j: int| 0 <= j < k ==> (#[trigger] table[j]).0 != name,
    ensures
        named_color(table, name) == Some(table[k].1),
    decreases k,
{
    if k > 0 {
        assert(table[0].0 != name);
        assert forall|j: int| 0 <= j < k - 1 implies (#[trigger] table.skip(1)[j]).0 != name by {
            assert(table.skip(1)[j] == table[j + 1]);
        }
        assert(table.skip(1)[k - 1] == table[k]);
        lemma_named_color_first(table.skip(1), name, k - 1);
    }
}

/// Each color name reads as its color: the eight basic colors, gray (also
/// spelled grey) and dark gray (with or without `_`, gray or grey), the
/// light variants (with or without `_`), white and reset.
pub proof fn law_color_names()
    ensures
        color_of_lower("black"@) == ThemeColor::Black,
        color_of_lower("red"@) == ThemeColor::Red,
        color_of_lower("green"@) == ThemeColor::Green,
        color_of_lower("yellow"@) == ThemeColor::Yellow,
        color_of_lower("blue"@) == ThemeColor::Blue,
        color_of_lower("magenta"@) == ThemeColor::Magenta,
        color_of_lower("cyan"@) == ThemeColor::Cyan,
        color_of_lower("gray"@) == ThemeColor::Gray,
        color_of_lower("grey"@) == ThemeColor::Gray,
        color_of_lower("dark_gray"@) == ThemeColor::DarkGray,
        color_of_lower("dark_grey"@) == ThemeColor::DarkGray,
        color_of_lower("darkgray"@) == ThemeColor::DarkGray,
        color_of_lower("darkgrey"@) == ThemeColor::DarkGray,
        color_of_lower("light_red"@) == ThemeColor::LightRed,
        color_of_lower("lightred"@) == ThemeColor::LightRed,
        color_of_lower("light_green"@) == ThemeColor::LightGreen,
        color_of_lower("lightgreen"@) == ThemeColor::LightGreen,
        color_of_lower("light_yellow"@) == ThemeColor::LightYellow,
        color_of_lower("lightyellow"@) == ThemeColor::LightYellow,
        color_of_lower("light_blue"@) == ThemeColor::LightBlue,
        color_of_lower("lightblue"@) == ThemeColor::LightBlue,
        color_of_lower("light_magenta"@) == ThemeColor::LightMagenta,
        color_of_lower("lightmagenta"@) == ThemeColor::LightMagenta,
        color_of_lower("light_cyan"@) == ThemeColor::LightCyan,
        color_of_lower("lightcyan"@) == ThemeColor::LightCyan,
        color_of_lower("white"@) == ThemeColor::White,
        color_of_lower("reset"@) == ThemeColor::Reset,
{
    let t = color_names();
    reveal_strlit("black");
    assert("black"@.len() == 5 && "black"@[0] == 'b' && "black"@[3] == 'c');
    reveal_strlit("red");
    assert("red"@.len() == 3 && "red"@[0] == 'r' && "red"@[1] == 'e');
    reveal_strlit("green");
    assert("green"@.len() == 5 && "green"@[0] == 'g' && "green"@[3] == 'e');
    reveal_strlit("yellow");
    assert("yellow"@.len() == 6 && "yellow"@[0] == 'y' && "yellow"@[4] == 'o');
    reveal_strlit("blue");
    assert("blue"@.len() == 4 && "blue"@[0] == 'b' && "blue"@[2] == 'u');
    reveal_strlit("magenta");
    assert("magenta"@.len() == 7 && "magenta"@[0] == 'm' && "magenta"@[5] == 't');
    reveal_strlit("cyan");
    assert("cyan"@.len() == 4 && "cyan"@[0] == 'c' && "cyan"@[2] == 'a');
    reveal_strlit("gray");
    assert("gray"@.len() == 4 && "gray"@[0] == 'g' && "gray"@[2] == 'a');
    reveal_strlit("grey");
    assert("grey"@.len() == 4 && "grey"@[0] == 'g' && "grey"@[2] == 'e');
    reveal_strlit("dark_gray");
    assert("dark_gray"@.len() == 9 && "dark_gray"@[0] == 'd' && "dark_gray"@[7] == 'a');
    reveal_strlit("dark_grey");
    assert("dark_grey"@.len() == 9 && "dark_grey"@[0] == 'd' && "dark_grey"@[7] == 'e');
    reveal_strlit("darkgray");
    assert("darkgray"@.len() == 8 && "darkgray"@[0] == 'd' && "darkgray"@[6] == 'a');
    reveal_strlit("darkgrey");
    assert("darkgrey"@.len() == 8 && "darkgrey"@[0] == 'd' && "darkgrey"@[6] == 'e');
    reveal_strlit("light_red");
    assert("light_red"@.len() == 9 && "light_red"@[0] == 'l' && "light_red"@[7] == 'e');
    reveal_strlit("lightred");
    assert("lightred"@.len() == 8 && "lightred"@[0] == 'l' && "lightred"@[6] == 'e');
    reveal_strlit("light_green");
    assert("light_green"@.len() == 11 && "light_green"@[0] == 'l' && "light_green"@[9] == 'e');
    reveal_strlit("lightgreen");
    assert("lightgreen"@.len() == 10 && "lightgreen"@[0] == 'l' && "lightgreen"@[8] == 'e');
    reveal_strlit("light_yellow");
    assert("light_yellow"@.len() == 12 && "light_yellow"@[0] == 'l' && "light_yellow"@[10] == 'o');
    reveal_strlit("lightyellow");
    assert("lightyellow"@.len() == 11 && "lightyellow"@[0] == 'l' && "lightyellow"@[9] == 'o');
    reveal_strlit("light_blue");
    assert("light_blue"@.len() == 10 && "light_blue"@[0] == 'l' && "light_blue"@[8] == 'u');
    reveal_strlit("lightblue");
    assert("lightblue"@.len() == 9 && "lightblue"@[0] == 'l' && "lightblue"@[7] == 'u');
    reveal_strlit("light_magenta");
    assert("light_magenta"@.len() == 13 && "light_magenta"@[0] == 'l' && "light_magenta"@[11] == 't');
    reveal_strlit("lightmagenta");
    assert("lightmagenta"@.len() == 12 && "lightmagenta"@[0] == 'l' && "lightmagenta"@[10] == 't');
    reveal_strlit("light_cyan");
    assert("light_cyan"@.len() == 10 && "light_cyan"@[0] == 'l' && "light_cyan"@[8] == 'a');
    reveal_strlit("lightcyan");
    assert("lightcyan"@.len() == 9 && "lightcyan"@[0] == 'l' && "lightcyan"@[7] == 'a');
    reveal_strlit("white");
    assert("white"@.len() == 5 && "white"@[0] == 'w' && "white"@[3] == 't');
    reveal_strlit("reset");
    assert("reset"@.len() == 5 && "reset"@[0] == 'r' && "reset"@[3] == 'e');
    assert(t[0].0 == "black"@);
    assert(t[1].0 == "red"@);
    assert(t[2].0 == "green"@);
    assert(t[3].0 == "yellow"@);
    assert(t[4].0 == "blue"@);
    assert(t[5].0 == "magenta"@);
    assert(t[6].0 == "cyan"@);
    assert(t[7].0 == "gray"@);
    assert(t[8].0 == "grey"@);
    assert(t[9].0 == "dark_gray"@);
    assert(t[10].0 == "dark_grey"@);
    assert(t[11].0 == "darkgray"@);
    assert(t[12].0 == "darkgrey"@);
    assert(t[13].0 == "light_red"@);
    assert(t[14].0 == "lightred"@);
    assert(t[15].0 == "light_green"@);
    assert(t[16].0 == "lightgreen"@);
    assert(t[17].0 == "light_yellow"@);
    assert(t[18].0 == "lightyellow"@);
    assert(t[19].0 == "light_blue"@);
    assert(t[20].0 == "lightblue"@);
    assert(t[21].0 == "light_magenta"@);
    assert(t[22].0 == "lightmagenta"@);
    assert(t[23].0 == "light_cyan"@);
    assert(t[24].0 == "lightcyan"@);
    assert(t[25].0 == "white"@);
    assert(t[26].0 == "reset"@);
    lemma_named_color_first(t, "black"@, 0);
    assert forall|j: int| 0 <= j < 1 implies (#[trigger] t[j]).0 != "red"@ by {}
    lemma_named_color_first(t, "red"@, 1);
    assert forall|j: int| 0 <= j < 2 implies (#[trigger] t[j]).0 != "green"@ by {}
    lemma_named_color_first(t, "green"@, 2);
    assert forall|j: int| 0 <= j < 3 implies (#[trigger] t[j]).0 != "yellow"@ by {}
    lemma_named_color_first(t, "yellow"@, 3);
    assert forall|j: int| 0 <= j < 4 implies (#[trigger] t[j]).0 != "blue"@ by {}
    lemma_named_color_first(t, "blue"@, 4);
    assert forall|j: int| 0 <= j < 5 implies (#[trigger] t[j]).0 != "magenta"@ by {}
    lemma_named_color_first(t, "magenta"@, 5);
    assert forall|j: int| 0 <= j < 6 implies (#[trigger] t[j]).0 != "cyan"@ by {}
    lemma_named_color_first(t, "cyan"@, 6);
    assert forall|j: int| 0 <= j < 7 implies (#[trigger] t[j]).0 != "gray"@ by {}
    lemma_named_color_first(t, "gray"@, 7);
    assert forall|j: int| 0 <= j < 8 implies (#[trigger] t[j]).0 != "grey"@ by {}
    lemma_named_color_first(t, "grey"@, 8);
    assert forall|j: int| 0 <= j < 9 implies (#[trigger] t[j]).0 != "dark_gray"@ by {}
    lemma_named_color_first(t, "dark_gray"@, 9);
    assert forall|j: int| 0 <= j < 10 implies (#[trigger] t[j]).0 != "dark_grey"@ by {}
    lemma_named_color_first(t, "dark_grey"@, 10);
    assert forall|j: int| 0 <= j < 11 implies (#[trigger] t[j]).0 != "darkgray"@ by {}
    lemma_named_color_first(t, "darkgray"@, 11);
    assert forall|j: int| 0 <= j < 12 implies (#[trigger] t[j]).0 != "darkgrey"@ by {}
    lemma_named_color_first(t, "darkgrey"@, 12);
    assert forall|j: int| 0 <= j < 13 implies (#[trigger] t[j]).0 != "light_red"@ by {}
    lemma_named_color_first(t, "light_red"@, 13);
    assert forall|j: int| 0 <= j < 14 implies (#[trigger] t[j]).0 != "lightred"@ by {}
    lemma_named_color_first(t, "lightred"@, 14);
    assert forall|j: int| 0 <= j < 15 implies (#[trigger] t[j]).0 != "light_green"@ by {}
    lemma_named_color_first(t, "light_green"@, 15);
    assert forall|j: int| 0 <= j < 16 implies (#[trigger] t[j]).0 != "lightgreen"@ by {}
    lemma_named_color_first(t, "lightgreen"@, 16);
    assert forall|j: int| 0 <= j < 17 implies (#[trigger] t[j]).0 != "light_yellow"@ by {}
    lemma_named_color_first(t, "light_yellow"@, 17);
    assert forall|j: int| 0 <= j < 18 implies (#[trigger] t[j]).0 != "lightyellow"@ by {}
    lemma_named_color_first(t, "lightyellow"@, 18);
    assert forall|j: int| 0 <= j < 19 implies (#[trigger] t[j]).0 != "light_blue"@ by {}
    lemma_named_color_first(t, "light_blue"@, 19);
    assert forall|j: int| 0 <= j < 20 implies (#[trigger] t[j]).0 != "lightblue"@ by {}
    lemma_named_color_first(t, "lightblue"@, 20);
    assert forall|j: int| 0 <= j < 21 implies (#[trigger] t[j]).0 != "light_magenta"@ by {}
    lemma_named_color_first(t, "light_magenta"@, 21);
    assert forall|j: int| 0 <= j < 22 implies (#[trigger] t[j]).0 != "lightmagenta"@ by {}
    lemma_named_color_first(t, "lightmagenta"@, 22);
    assert forall|j: int| 0 <= j < 23 implies (#[trigger] t[j]).0 != "light_cyan"@ by {}
    lemma_named_color_first(t, "light_cyan"@, 23);
    assert forall|j: int| 0 <= j < 24 implies (#[trigger] t[j]).0 != "lightcyan"@ by {}
    lemma_named_color_first(t, "lightcyan"@, 24);
    assert forall|j: int| 0 <= j < 25 implies (#[trigger] t[j]).0 != "white"@ by {}
    lemma_named_color_first(t, "white"@, 25);
    assert forall|j: int| 0 <= j < 26 implies (#[trigger] t[j]).0 != "reset"@ by {}
    lemma_named_color_first(t, "reset"@, 26);
}

/// The UTF-8 text `l` has the `#rrggbb` shape: seven bytes, the first `#`.
pub open spec fn hex_shaped(l: Seq<char>) -> bool {
    let b = vstd::utf8::encode_utf8(l);
    b.len() == 7 && b[0] == 35
}

/// Cutting the `#rrggbb` text `l` into its byte pairs stays on character
/// boundaries (otherwise `str` slicing would panic).
pub open spec fn hex_slices_ok(l: Seq<char>) -> bool {
    let b = vstd::utf8::encode_utf8(l);
    hex_shaped(l) ==> vstd::utf8::is_char_boundary(b, 3) && vstd::utf8::is_char_boundary(b, 5)
}

/// The color a lower-cased color text names: a known name, a `#rrggbb`
/// value (invalid pairs read as `0`), or `Reset`.
pub open spec fn color_of_lower(l: Seq<char>) -> ThemeColor {
    match named_color(color_names(), l) {
        Some(c) => c,
        None => {
            let b = vstd::utf8::encode_utf8(l);
            if hex_shaped(l) {
                ThemeColor::Rgb(hex_pair(b[1], b[2]), hex_pair(b[3], b[4]), hex_pair(b[5], b[6]))
            } else {
                ThemeColor::Reset
            }
        },
    }
}

fn is_hex_byte(b: u8) -> (r: bool)
    ensures
        r == is_hex_digit(b),
{
    (48 <= b && b <= 57) || (65 <= b && b <= 70) || (97 <= b && b <= 102)
}

fn hex_byte_value(b: u8) -> (r: u8)
    requires
        is_hex_digit(b),
    ensures
        r == hex_value(b),
        r < 16,
{
    if 48 <= b && b <= 57 {
        b - 48
    } else if 65 <= b && b <= 70 {
        b - 55
    } else {
        b - 87
    }
}

fn parse_hex_pair(b0: u8, b1: u8) -> (r: u8)
    ensures
        r == hex_pair(b0, b1),
{
    if b0 == 43 {
        if is_hex_byte(b1) {
            hex_byte_value(b1)
        } else {
            0
        }
    } else if is_hex_byte(b0) && is_hex_byte(b1) {
        16 * hex_byte_value(b0) + hex_byte_value(b1)
    } else {
        0
    }
}

/// Looks up a lower-cased color name.
fn lookup_color(name: &str) -> (r: Option<ThemeColor>)
    ensures
        r == named_color(color_names(), name@),
{
    let table: [(&str, ThemeColor); 27] = [("black", ThemeColor::Black), ("red", ThemeColor::Red), ("green", ThemeColor::Green), ("yellow", ThemeColor::Yellow), ("blue", ThemeColor::Blue), ("magenta", ThemeColor::Magenta), ("cyan", ThemeColor::Cyan), ("gray", ThemeColor::Gray), ("grey", ThemeColor::Gray), ("dark_gray", ThemeColor::DarkGray), ("dark_grey", ThemeColor::DarkGray), ("darkgray", ThemeColor::DarkGray), ("darkgrey", ThemeColor::DarkGray), ("light_red", ThemeColor::LightRed), ("lightred", ThemeColor::LightRed), ("light_green", ThemeColor::LightGreen), ("lightgreen", ThemeColor::LightGreen), ("light_yellow", ThemeColor::LightYellow), ("lightyellow", ThemeColor::LightYellow), ("light_blue", ThemeColor::LightBlue), ("lightblue", ThemeColor::LightBlue), ("light_magenta", ThemeColor::LightMagenta), ("lightmagenta", ThemeColor::LightMagenta), ("light_cyan", ThemeColor::LightCyan), ("lightcyan", ThemeColor::LightCyan), ("white", ThemeColor::White), ("reset", ThemeColor::Reset)];
    let ghost tv = table@.map_values(|p: (&str, ThemeColor)| (p.0@, p.1));
    proof {
        assert(tv =~= color_names());
        assert(tv.skip(0) =~= tv);
    }
    let mut i: usize = 0;
    while i < table.len()
        invariant
            i <= table@.len(),
            tv == table@.map_values(|p: (&str, ThemeColor)| (p.0@, p.1)),
            tv == color_names(),
            named_color(tv, name@) == named_color(tv.skip(i as int), name@),
        decreases table.len() - i,
    {
        proof {
            assert(tv.skip(i as int)[0] == tv[i as int]);
            assert(tv.skip(i as int).skip(1) =~= tv.skip(i + 1));
        }
        if str_eq(table[i].0, name) {
            return Some(table[i].1);
        }
        i = i + 1;
    }
    proof {
        assert(tv.skip(i as int).len() == 0);
    }
    None
}

/// The color a lower-cased color text names.
pub fn color_from_lower(l: &str) -> (c: ThemeColor)
    requires
        hex_slices_ok(l@),
    ensures
        c == color_of_lower(l@),
{
    match lookup_color(l) {
        Some(c) => c,
        None => {
            let b = l.as_bytes();
            if b.len() == 7 && b[0] == 35 {
                ThemeColor::Rgb(parse_hex_pair(b[1], b[2]), parse_hex_pair(b[3], b[4]), parse_hex_pair(b[5], b[6]))
            } else {
                ThemeColor::Reset
            }
        },
    }
}

/// Parses a color string: named colors (`"blue"`, `"dark_gray"`, any case)
/// and hex (`"#rrggbb"`); unrecognised values give `Reset`.
pub fn parse_color(s: &str) -> (c: ThemeColor)
    requires
        hex_slices_ok(std_lowercase(s@)),
    ensures
        c == color_of_lower(std_lowercase(s@)),
{
    let l = to_lowercase(s);
    color_from_lower(l.as_str())
}

/// Parses a color string as [`parse_color`] does, or gives `None` for a
/// `#` text of seven bytes whose byte pairs would split a character.
pub fn try_parse_color(s: &str) -> (r: Option<ThemeColor>)
    ensures
        r is Some <==> hex_slices_ok(std_lowercase(s@)),
        r matches Some(c) ==> c == color_of_lower(std_lowercase(s@)),
{
    let l = to_lowercase(s);
    let ls = l.as_str();
    let b = ls.as_bytes();
    if b.len() == 7 && b[0] == 35 && !(ls.is_char_boundary(3) && ls.is_char_boundary(5)) {
        return None;
    }
    Some(parse_color(s))
}

} // verus!

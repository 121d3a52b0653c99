//! State of the remote connection form.

use vstd::prelude::*;
use crate::config::theme::ThemeColor;
use crate::text::{chars_of, concat, string_from_chars, to_owned_string};
use crate::tui::style::{plain_style, spans_view, StyledSpan, TextStyle};

verus! {

/// Which field in the connection form has focus.
#[derive(Debug, Clone, Copy, PartialEq, Eq, Structural)]
pub enum ConnectField {
    Host,
    Port,
    Username,
    Password,
}

impl ConnectField {
    /// Position of the field in the form.
    pub open spec fn index(self) -> int {
        match self {
            ConnectField::Host => 0,
            ConnectField::Port => 1,
            ConnectField::Username => 2,
            ConnectField::Password => 3,
        }
    }

    /// Advance to the next field (wrapping around).
    pub fn next(self) -> (r: Self)
        ensures
            r.index() == (self.index() + 1) % 4,
            r == self.next_spec(),
    {
        match self {
            ConnectField::Host => ConnectField::Port,
            ConnectField::Port => ConnectField::Username,
            ConnectField::Username => ConnectField::Password,
            ConnectField::Password => ConnectField::Host,
        }
    }

    /// Go to the previous field (wrapping around).
    pub fn prev(self) -> (r: Self)
        ensures
            r.index() == (self.index() + 3) % 4,
            r == self.prev_spec(),
    {
        match self {
            ConnectField::Host => ConnectField::Password,
            ConnectField::Port => ConnectField::Host,
            ConnectField::Username => ConnectField::Port,
            ConnectField::Password => ConnectField::Username,
        }
    }

    /// Returns the label for a field.
    pub fn label(self) -> (r: &'static str)
        ensures
            r@ == match self {
                ConnectField::Host => "Host"@,
                ConnectField::Port => "Port"@,
                ConnectField::Username => "Username"@,
                ConnectField::Password => "Password"@,
            },
    {
        match self {
            ConnectField::Host => "Host",
            ConnectField::Port => "Port",
            ConnectField::Username => "Username",
            ConnectField::Password => "Password",
        }
    }
}

/// Moving to the next field and back is no move.
pub proof fn law_connect_field_next_prev(f: ConnectField)
    ensures
        f.next_spec().prev_spec() == f,
        f.prev_spec().next_spec() == f,
{
}

impl ConnectField {
    /// The field after this one, wrapping around.
    pub open spec fn next_spec(self) -> ConnectField {
        match self {
            ConnectField::Host => ConnectField::Port,
            ConnectField::Port => ConnectField::Username,
            ConnectField::Username => ConnectField::Password,
            ConnectField::Password => ConnectField::Host,
        }
    }

    /// The field before this one, wrapping around.
    pub open spec fn prev_spec(self) -> ConnectField {
        match self {
            ConnectField::Host => ConnectField::Password,
            ConnectField::Port => ConnectField::Host,
            ConnectField::Username => ConnectField::Port,
            ConnectField::Password => ConnectField::Username,
        }
    }
}

/// State of the remote connection form.
#[derive(Debug, Clone)]
pub struct ConnectFormState {
    pub host: String,
    pub port: String,
    pub username: String,
    pub password: String,
    pub focused: ConnectField,
    pub error_message: Option<String>,
    pub is_connecting: bool,
}

impl Default for ConnectFormState {
    fn default() -> (s: Self)
        ensures
            s.host@.len() == 0,
            s.port@ == "22"@,
            s.username@.len() == 0,
            s.password@.len() == 0,
            s.focused == ConnectField::Host,
            s.error_message is None,
            !s.is_connecting,
    {
        ConnectFormState {
            host: String::new(),
            port: to_owned_string("22"),
            username: String::new(),
            password: String::new(),
            focused: ConnectField::Host,
            error_message: None,
            is_connecting: false,
        }
    }
}

/// `n` asterisks.
pub open spec fn stars(n: nat) -> Seq<char> {
    Seq::new(n, |i: int| '*')
}

impl ConnectFormState {
    /// The text of the focused field.
    pub open spec fn focused_text(&self) -> Seq<char> {
        match self.focused {
            ConnectField::Host => self.host@,
            ConnectField::Port => self.port@,
            ConnectField::Username => self.username@,
            ConnectField::Password => self.password@,
        }
    }

    /// Returns a mutable reference to the string of the currently focused field.
    pub fn focused_value_mut(&mut self) -> (r: &mut String)
        ensures
            *r == match old(self).focused {
                ConnectField::Host => old(self).host,
                ConnectField::Port => old(self).port,
                ConnectField::Username => old(self).username,
                ConnectField::Password => old(self).password,
            },
            *final(self) == match old(self).focused {
                ConnectField::Host => ConnectFormState { host: *final(r), ..*old(self) },
                ConnectField::Port => ConnectFormState { port: *final(r), ..*old(self) },
                ConnectField::Username => ConnectFormState { username: *final(r), ..*old(self) },
                ConnectField::Password => ConnectFormState { password: *final(r), ..*old(self) },
            },
    {
        match self.focused {
            ConnectField::Host => &mut self.host,
            ConnectField::Port => &mut self.port,
            ConnectField::Username => &mut self.username,
            ConnectField::Password => &mut self.password,
        }
    }

    /// Returns the display string for a field: its text, or for the password
    /// one `*` per byte of its UTF-8 encoding.
    pub fn display_value(&self, field: ConnectField) -> (r: String)
        ensures
            r@ == match field {
                ConnectField::Host => self.host@,
                ConnectField::Port => self.port@,
                ConnectField::Username => self.username@,
                ConnectField::Password => stars((vstd::utf8::encode_utf8(self.password@).len() as usize) as nat),
            },
    {
        match field {
            ConnectField::Host => self.host.clone(),
            ConnectField::Port => self.port.clone(),
            ConnectField::Username => self.username.clone(),
            ConnectField::Password => {
                let pw = self.password.as_str();
                let n = pw.len();
                proof {
                    assert(pw@ == self.password@);
                }
                let mut out: Vec<char> = Vec::new();
                for i in 0..n
                    invariant
                        out@ == stars(i as nat),
                {
                    out.push('*');
                    proof {
                        assert(out@ =~= stars((i + 1) as nat));
                    }
                }
                string_from_chars(out.as_slice())
            },
        }
    }
}

/// The label of a field.
pub open spec fn field_label(f: ConnectField) -> Seq<char> {
    match f {
        ConnectField::Host => "Host"@,
        ConnectField::Port => "Port"@,
        ConnectField::Username => "Username"@,
        ConnectField::Password => "Password"@,
    }
}

/// What the form shows of a field: its text, the password as one `*` per
/// byte.
pub open spec fn shown_value(s: ConnectFormState, f: ConnectField) -> Seq<char> {
    match f {
        ConnectField::Host => s.host@,
        ConnectField::Port => s.port@,
        ConnectField::Username => s.username@,
        ConnectField::Password => stars((vstd::utf8::encode_utf8(s.password@).len() as usize) as nat),
    }
}

/// The line of a field: the cursor marker, label and value, with a `_`
/// cursor after the focused one, which is bold yellow; others white.
pub open spec fn field_line_of(s: ConnectFormState, f: ConnectField) -> (Seq<char>, TextStyle) {
    let focused = f == s.focused;
    let text = (if focused {
        "> "@
    } else {
        "  "@
    }) + field_label(f) + ": "@ + shown_value(s, f) + (if focused {
        "_"@
    } else {
        Seq::empty()
    });
    let style = if focused {
        TextStyle { fg: Some(ThemeColor::Yellow), bold: true, ..plain_style() }
    } else {
        TextStyle { fg: Some(ThemeColor::White), ..plain_style() }
    };
    (text, style)
}

/// The lines of the connection form: a blank line, the four fields, a
/// blank line, the progress note while connecting, the error if any, a
/// blank line and the key help.
pub open spec fn form_lines_of(s: ConnectFormState) -> Seq<(Seq<char>, TextStyle)> {
    let fields = seq![
        (Seq::empty(), plain_style()),
        field_line_of(s, ConnectField::Host),
        field_line_of(s, ConnectField::Port),
        field_line_of(s, ConnectField::Username),
        field_line_of(s, ConnectField::Password),
        (Seq::empty(), plain_style()),
    ];
    let connecting = if s.is_connecting {
        seq![("  Connecting..."@, TextStyle { fg: Some(ThemeColor::Cyan), italic: true, ..plain_style() })]
    } else {
        Seq::empty()
    };
    let error = match s.error_message {
        Some(e) => seq![("  Error: "@ + e@, TextStyle { fg: Some(ThemeColor::Red), ..plain_style() })],
        None => Seq::empty(),
    };
    fields + connecting + error + seq![
        (Seq::empty(), plain_style()),
        ("  Tab: next field | Enter: connect | Esc: cancel"@, TextStyle { fg: Some(ThemeColor::DarkGray), ..plain_style() }),
    ]
}

impl ConnectFormState {
    /// The line of `field` (see [`field_line_of`]).
    fn field_line(&self, field: ConnectField) -> (r: StyledSpan)
        ensures
            (r.text@, r.style) == field_line_of(*self, field),
    {
        let focused = field == self.focused;
        let marker = if focused {
            "> "
        } else {
            "  "
        };
        let t = concat(concat(marker, field.label()).as_str(), ": ");
        let t = concat(t.as_str(), self.display_value(field).as_str());
        let text = if focused {
            concat(t.as_str(), "_")
        } else {
            t
        };
        let style = if focused {
            TextStyle { fg: Some(ThemeColor::Yellow), bold: true, ..TextStyle::plain() }
        } else {
            TextStyle { fg: Some(ThemeColor::White), ..TextStyle::plain() }
        };
        proof {
            reveal_strlit("> ");
            reveal_strlit("  ");
            reveal_strlit(": ");
            reveal_strlit("_");
            let base = (if focused { "> "@ } else { "  "@ }) + field_label(field) + ": "@ + shown_value(*self, field);
            assert(base + Seq::<char>::empty() =~= base);
        }
        StyledSpan { text, style }
    }

    /// The lines of the form (see [`form_lines_of`]).
    pub fn form_lines(&self) -> (r: Vec<StyledSpan>)
        ensures
            spans_view(r@) == form_lines_of(*self),
    {
        let mut out: Vec<StyledSpan> = Vec::new();
        out.push(StyledSpan { text: String::new(), style: TextStyle::plain() });
        out.push(self.field_line(ConnectField::Host));
        out.push(self.field_line(ConnectField::Port));
        out.push(self.field_line(ConnectField::Username));
        out.push(self.field_line(ConnectField::Password));
        out.push(StyledSpan { text: String::new(), style: TextStyle::plain() });
        let ghost fields = spans_view(out@);
        if self.is_connecting {
            out.push(StyledSpan {
                text: "  Connecting...".to_owned(),
                style: TextStyle { fg: Some(ThemeColor::Cyan), italic: true, ..TextStyle::plain() },
            });
        }
        let ghost with_conn = spans_view(out@);
        match &self.error_message {
            Some(e) => {
                out.push(StyledSpan {
                    text: concat("  Error: ", e.as_str()),
                    style: TextStyle { fg: Some(ThemeColor::Red), ..TextStyle::plain() },
                });
            },
            None => {},
        }
        let ghost with_err = spans_view(out@);
        out.push(StyledSpan { text: String::new(), style: TextStyle::plain() });
        out.push(StyledSpan {
            text: "  Tab: next field | Enter: connect | Esc: cancel".to_owned(),
            style: TextStyle { fg: Some(ThemeColor::DarkGray), ..TextStyle::plain() },
        });
        proof {
            reveal_strlit("");
            reveal_strlit("  Error: ");
            assert(""@ =~= Seq::<char>::empty());
            assert(fields =~= seq![
                (Seq::empty(), plain_style()),
                field_line_of(*self, ConnectField::Host),
                field_line_of(*self, ConnectField::Port),
                field_line_of(*self, ConnectField::Username),
                field_line_of(*self, ConnectField::Password),
                (Seq::empty(), plain_style()),
            ]);
            let connecting = if self.is_connecting {
                seq![("  Connecting..."@, TextStyle { fg: Some(ThemeColor::Cyan), italic: true, ..plain_style() })]
            } else {
                Seq::empty()
            };
            let error = if self.error_message is Some {
                seq![("  Error: "@ + self.error_message->0@, TextStyle { fg: Some(ThemeColor::Red), ..plain_style() })]
            } else {
                Seq::empty()
            };
            assert(with_conn =~= fields + connecting);
            assert(with_err =~= fields + connecting + error);
            assert(spans_view(out@) =~= form_lines_of(*self));
        }
        out
    }
}

} // verus!

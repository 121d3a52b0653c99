use trefm::action::{Action, ActionRegistry};
use trefm::config::keymap::Keymap;
use trefm::config::theme::ThemeColor;
use trefm::tui::palette::{join_texts, palette_line};

fn texts(spans: &[trefm::tui::style::StyledSpan]) -> Vec<String> {
    spans.iter().map(|s| s.text.clone()).collect()
}

#[test]
fn palette_line_with_key_hint() {
    let reg = ActionRegistry::new();
    let keymap = Keymap::default();
    let desc = reg.descriptor_for(Action::Quit).unwrap();
    let spans = palette_line(desc, &keymap, false);
    assert_eq!(texts(&spans), vec!["  ", "Quit", "  [System]", "  Exit TreFM", "  (q)"]);
    assert_eq!(spans[1].style.fg, Some(ThemeColor::White));
    assert_eq!(spans[4].style.fg, Some(ThemeColor::Yellow));
}

#[test]
fn palette_line_selected_is_bold_cyan() {
    let reg = ActionRegistry::new();
    let keymap = Keymap::default();
    let desc = reg.descriptor_for(Action::CursorDown).unwrap();
    let spans = palette_line(desc, &keymap, true);
    assert_eq!(spans[0].text, "> ");
    assert_eq!(spans[1].text, "Cursor Down");
    assert_eq!(spans[1].style.fg, Some(ThemeColor::Cyan));
    assert!(spans[1].style.bold);
    assert_eq!(spans.last().unwrap().text, "  (j)");
}

#[test]
fn palette_line_without_keys_has_no_hint() {
    let reg = ActionRegistry::new();
    let keymap = Keymap::from_raw(vec![]);
    let desc = reg.descriptor_for(Action::Quit).unwrap();
    let spans = palette_line(desc, &keymap, false);
    assert_eq!(spans.len(), 4);
}

#[test]
fn palette_line_several_keys_sorted() {
    let reg = ActionRegistry::new();
    let keymap = Keymap::from_raw(vec![("x".to_string(), "quit".to_string()), ("Q".to_string(), "quit".to_string())]);
    let desc = reg.descriptor_for(Action::Quit).unwrap();
    let spans = palette_line(desc, &keymap, false);
    assert_eq!(spans.last().unwrap().text, "  (Q, x)");
}

#[test]
fn join_texts_cases() {
    assert_eq!(join_texts(&[], ", "), "");
    assert_eq!(join_texts(&["a".to_string()], ", "), "a");
    assert_eq!(join_texts(&["a".to_string(), "b".to_string(), "c".to_string()], "-"), "a-b-c");
}

use trefm::config::theme::{Theme, ThemeColor};
use trefm::fs::preview::TextPreview;
use trefm::tui::highlight::{file_preview_lines, highlight_lines, pager_lines, pager_window, HighlightedSpan};
use trefm::tui::style::check_theme_colors;

fn span(text: &str) -> HighlightedSpan {
    HighlightedSpan {
        fg: ThemeColor::Rgb(1, 2, 3),
        bg: ThemeColor::Rgb(0, 0, 0),
        bold: false,
        italic: false,
        underlined: false,
        text: text.to_string(),
    }
}

fn texts(lines: &[Vec<trefm::tui::style::StyledSpan>]) -> Vec<String> {
    lines.iter().map(|l| l.iter().map(|s| s.text.as_str()).collect::<String>()).collect()
}

#[test]
fn default_theme_colors_are_readable() {
    assert!(check_theme_colors(&Theme::default()));
}

#[test]
fn highlight_lines_colors_rust_source() {
    let lines = vec!["fn main() {}".to_string(), "let x = 1;".to_string()];
    let (hl, _bg) = highlight_lines("/src/main.rs", "base16-ocean.dark", &lines);
    assert_eq!(hl.len(), 2);
    let first: String = hl[0].iter().map(|s| s.text.as_str()).collect();
    assert_eq!(first.trim_end_matches('\n'), "fn main() {}");
    assert!(hl[0].len() > 1);
}

#[test]
fn highlight_lines_falls_back_on_unknown_theme() {
    let lines = vec!["hello".to_string()];
    let (hl, bg) = highlight_lines("/notes/readme.unknownext", "no-such-theme", &lines);
    let (hl2, bg2) = highlight_lines("/notes/readme.unknownext", "base16-ocean.dark", &lines);
    assert_eq!(hl.len(), 1);
    assert_eq!(bg, bg2);
    assert_eq!(hl[0].len(), hl2[0].len());
}

#[test]
fn file_preview_lines_binary_note() {
    let out = file_preview_lines(2048, true, None, &Vec::new(), None, &Theme::default());
    assert_eq!(texts(&out), vec!["Binary file - 2.0 KB".to_string()]);
}

#[test]
fn file_preview_lines_unreadable() {
    let out = file_preview_lines(10, false, None, &Vec::new(), None, &Theme::default());
    assert_eq!(texts(&out), vec!["Unable to read file".to_string()]);
}

#[test]
fn file_preview_lines_numbered_and_truncated() {
    let preview = TextPreview { lines: vec!["a".to_string(), "b".to_string()], total_lines: 5, is_truncated: true };
    let hl = vec![vec![span("a")], vec![span("b")]];
    let out = file_preview_lines(10, false, Some(&preview), &hl, None, &Theme::default());
    assert_eq!(out.len(), 4);
    assert_eq!(texts(&out)[0], "  1 a");
    assert_eq!(texts(&out)[1], "  2 b");
    assert_eq!(texts(&out)[2], "");
    assert!(texts(&out)[3].contains("truncated"));
    assert_eq!(out[0][1].style.fg, Some(ThemeColor::Rgb(1, 2, 3)));
}

#[test]
fn pager_window_clamps_to_text() {
    let lines: Vec<String> = (1..=5).map(|i| i.to_string()).collect();
    assert_eq!(pager_window(&lines, 1, 2), vec!["2".to_string(), "3".to_string()]);
    assert_eq!(pager_window(&lines, 4, 10), vec!["5".to_string()]);
    assert!(pager_window(&lines, 9, 3).is_empty());
}

#[test]
fn pager_lines_number_from_scroll() {
    let hl = vec![vec![span("x")], vec![span("y")]];
    let out = pager_lines(1200, 10, &hl, None, &Theme::default());
    assert_eq!(texts(&out), vec!["  11 x".to_string(), "  12 y".to_string()]);
}

use trefm::config::theme::ThemeColor;
use trefm::tui::markdown::{render_markdown, split_lines};

#[test]
fn heading_1_is_bold_blue() {
    let lines = render_markdown("# Hello");
    assert!(!lines.is_empty());
    let first = &lines[0];
    assert!(!first.is_empty());
    let style = first[0].style;
    assert_eq!(style.fg, Some(ThemeColor::Blue));
    assert!(style.bold);
}

#[test]
fn heading_2_is_bold_cyan() {
    let lines = render_markdown("## World");
    assert!(!lines.is_empty());
    let style = lines[0][0].style;
    assert_eq!(style.fg, Some(ThemeColor::Cyan));
}

#[test]
fn bold_text() {
    let lines = render_markdown("**bold**");
    assert!(!lines.is_empty());
    assert!(lines[0].iter().any(|s| s.style.bold));
}

#[test]
fn italic_text() {
    let lines = render_markdown("*italic*");
    assert!(!lines.is_empty());
    assert!(lines[0].iter().any(|s| s.style.italic));
}

#[test]
fn inline_code() {
    let lines = render_markdown("use `code` here");
    assert!(!lines.is_empty());
    assert!(lines[0].iter().any(|s| s.style.bg == Some(ThemeColor::DarkGray)));
}

#[test]
fn list_items_have_bullet() {
    let lines = render_markdown("- item one\n- item two");
    assert!(lines.iter().any(|l| l.iter().any(|s| s.text.contains('\u{2022}'))));
}

#[test]
fn horizontal_rule() {
    let lines = render_markdown("---");
    assert!(lines.iter().any(|l| l.iter().any(|s| s.text.contains('\u{2500}'))));
}

#[test]
fn empty_input_returns_empty() {
    let lines = render_markdown("");
    assert!(lines.is_empty());
}

#[test]
fn plain_text() {
    let lines = render_markdown("plain text");
    assert!(!lines.is_empty());
    let content: String = lines[0].iter().map(|s| s.text.as_str()).collect();
    assert!(content.contains("plain text"));
}

#[test]
fn markdown_paragraph_then_blank_line() {
    let lines = render_markdown("one\n\ntwo");
    assert_eq!(lines.len(), 4);
    assert_eq!(lines[0][0].text, "one");
    assert!(lines[1].is_empty());
    assert_eq!(lines[2][0].text, "two");
    assert!(lines[3].is_empty());
}

#[test]
fn markdown_list_bullet_indent_and_rule_width() {
    let lines = render_markdown("- a");
    assert_eq!(lines[0][0].text, "  \u{2022} ");
    let rule = render_markdown("***");
    assert_eq!(rule[0][0].text.chars().count(), 40);
    assert_eq!(rule[0][0].style.fg, Some(ThemeColor::DarkGray));
}

#[test]
fn markdown_code_block_lines() {
    let lines = render_markdown("```\nfn a() {}\nlet x = 1;\n```");
    assert_eq!(lines.len(), 2);
    assert_eq!(lines[0][0].text, "fn a() {}");
    assert_eq!(lines[1][0].text, "let x = 1;");
    assert_eq!(lines[0][0].style.bg, Some(ThemeColor::DarkGray));
}

#[test]
fn markdown_block_quote_has_bar() {
    let lines = render_markdown("> quoted");
    assert_eq!(lines[0][0].text, "\u{2502} ");
    assert_eq!(lines[0][1].text, "quoted");
    assert_eq!(lines[0][1].style.fg, Some(ThemeColor::DarkGray));
}

#[test]
fn markdown_link_is_underlined_cyan() {
    let lines = render_markdown("[site](http://x)");
    let span = &lines[0][0];
    assert_eq!(span.text, "site");
    assert!(span.style.underlined);
    assert_eq!(span.style.fg, Some(ThemeColor::Cyan));
}

#[test]
fn split_lines_like_str_lines() {
    for s in ["", "a", "a\n", "a\r\nb", "a\n\nb\n", "x\r", "\n"] {
        let expected: Vec<String> = s.lines().map(|l| l.to_string()).collect();
        assert_eq!(split_lines(s), expected, "input {s:?}");
    }
}

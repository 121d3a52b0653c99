use trefm::fs::preview::is_markdown;
use trefm::error::CoreError;
use trefm::fs::preview::{
    build_text_preview, is_image, is_pdf, looks_binary, read_text_preview, strip_ansi_escapes, TextPreview, TreeEntry,
};

#[test]
fn text_preview_clone_and_eq() {
    let preview = TextPreview { lines: vec!["hello".to_string()], total_lines: 1, is_truncated: false };
    let cloned = preview.clone();
    assert_eq!(preview, cloned);
}

#[test]
fn text_preview_debug_format() {
    let preview = TextPreview { lines: vec!["test".to_string()], total_lines: 1, is_truncated: false };
    let debug = format!("{:?}", preview);
    assert!(debug.contains("TextPreview"));
}

#[test]
fn tree_entry_clone_and_eq() {
    let entry = TreeEntry { name: "file.txt".to_string(), is_dir: false, depth: 0 };
    let cloned = entry.clone();
    assert_eq!(entry, cloned);
}

#[test]
fn tree_entry_debug_format() {
    let entry = TreeEntry { name: "dir".to_string(), is_dir: true, depth: 2 };
    let debug = format!("{:?}", entry);
    assert!(debug.contains("TreeEntry"));
    assert!(debug.contains("dir"));
}

#[test]
fn tree_entry_ne_different_names() {
    let e1 = TreeEntry { name: "a".to_string(), is_dir: false, depth: 0 };
    let e2 = TreeEntry { name: "b".to_string(), is_dir: false, depth: 0 };
    assert_ne!(e1, e2);
}

#[test]
fn strip_ansi_plain_text_unchanged() {
    assert_eq!(strip_ansi_escapes("hello world"), "hello world");
}

#[test]
fn strip_ansi_csi_color_codes() {
    assert_eq!(
        strip_ansi_escapes("\x1b[31mERROR\x1b[0m: something failed"),
        "ERROR: something failed"
    );
}

#[test]
fn strip_ansi_multiple_csi_sequences() {
    assert_eq!(
        strip_ansi_escapes("\x1b[1;32m✓\x1b[0m Build \x1b[36msucceeded\x1b[0m"),
        "✓ Build succeeded"
    );
}

#[test]
fn strip_ansi_osc_sequence() {
    assert_eq!(strip_ansi_escapes("before\x1b]0;window title\x07after"), "beforeafter");
}

#[test]
fn strip_ansi_control_chars() {
    assert_eq!(strip_ansi_escapes("hello\x08\x07world"), "helloworld");
}

#[test]
fn strip_ansi_expands_tabs() {
    assert_eq!(strip_ansi_escapes("col1\tcol2\tcol3"), "col1    col2    col3");
}

#[test]
fn strip_ansi_empty_string() {
    assert_eq!(strip_ansi_escapes(""), "");
}

#[test]
fn strip_ansi_build_log_line() {
    let input = "\x1b[0;32m   Compiling\x1b[0m trefm-core v0.1.0";
    assert_eq!(strip_ansi_escapes(input), "   Compiling trefm-core v0.1.0");
}

#[test]
fn strip_ansi_tab_separated_log() {
    let input = "2026-02-04T13:52:47.513Z\tInitializing build environment...";
    assert_eq!(
        strip_ansi_escapes(input),
        "2026-02-04T13:52:47.513Z    Initializing build environment..."
    );
}

#[test]
fn strip_ansi_edge_sequences() {
    assert_eq!(strip_ansi_escapes("a\x1b]title\x1b\\b"), "ab");
    assert_eq!(strip_ansi_escapes("a\x1bXb"), "ab");
    assert_eq!(strip_ansi_escapes("a\x1b"), "a");
    assert_eq!(strip_ansi_escapes("a\x1b[12;"), "a");
    assert_eq!(strip_ansi_escapes("x\u{85}y\u{7f}z"), "xyz");
}

#[test]
fn text_preview_from_lines() {
    let lines: Vec<String> = vec!["line1".into(), "\x1b[1mline2\x1b[0m".into(), "line3".into()];
    let p = build_text_preview(&lines, 2);
    assert_eq!(p.lines, vec!["line1".to_string(), "line2".to_string()]);
    assert_eq!(p.total_lines, 3);
    assert!(p.is_truncated);
    let all = build_text_preview(&lines, 10);
    assert_eq!(all.lines.len(), 3);
    assert!(!all.is_truncated);
}

#[test]
fn read_text_preview_errors() {
    assert!(matches!(read_text_preview("/x", false, b"", &[], 10), Err(CoreError::NotFound(_))));
    assert!(matches!(
        read_text_preview("/x", true, b"ab\0c", &[], 10),
        Err(CoreError::InvalidName(m)) if m == "binary file cannot be previewed as text"
    ));
    assert!(read_text_preview("/x", true, b"abc", &["abc".to_string()], 10).is_ok());
    assert!(looks_binary(&[1, 0, 2]));
    assert!(!looks_binary(b"text"));
}

#[test]
fn image_and_pdf_extensions() {
    assert!(is_image("/a/photo.PNG"));
    assert!(is_image("/a/x.svg"));
    assert!(!is_image("/a/x.txt"));
    assert!(!is_image("/a/png"));
    assert!(is_pdf("/a/Doc.Pdf"));
    assert!(!is_pdf("/a/doc.pdfx"));
}

#[test]
fn is_markdown_extensions() {
    assert!(is_markdown("/a/README.md"));
    assert!(is_markdown("/a/notes.MarkDown"));
    assert!(is_markdown("/a/page.mdx"));
    assert!(!is_markdown("/a/md"));
    assert!(!is_markdown("/a/x.txt"));
}

#[test]
fn strip_ansi_escapes_is_idempotent_and_leaves_no_control() {
    let inputs = ["\x1b[31mred\x1b[0m\ttab", "a\x1b]0;title\x07b", "\x01x\x7f\u{85}y", "plain text", "\x1bXz"];
    for s in inputs {
        let once = strip_ansi_escapes(s);
        assert!(once.chars().all(|c| !c.is_control()));
        assert_eq!(strip_ansi_escapes(&once), once);
    }
    assert_eq!(strip_ansi_escapes("\x1b[31mred\x1b[0m\ttab"), "red    tab");
    assert_eq!(strip_ansi_escapes("plain text"), "plain text");
}

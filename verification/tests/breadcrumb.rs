use trefm::config::theme::{Theme, ThemeColor};
use trefm::git::branch::BranchInfo;
use trefm::tui::breadcrumb::{breadcrumb_branch, breadcrumb_path, path_components};

fn texts(spans: &[trefm::tui::style::StyledSpan]) -> Vec<String> {
    spans.iter().map(|s| s.text.clone()).collect()
}

#[test]
fn breadcrumb_under_home_uses_tilde() {
    let theme = Theme::default();
    let spans = breadcrumb_path("/home/kim/projects/trefm", "/home/kim", &theme);
    assert_eq!(texts(&spans), vec![" ~", " / ", "projects", " / ", "trefm"]);
    assert_eq!(spans[0].style.fg, Some(ThemeColor::Cyan));
    assert!(spans[0].style.bold);
    assert_eq!(spans[1].style.fg, Some(ThemeColor::DarkGray));
    assert_eq!(spans[2].style.fg, Some(ThemeColor::White));
}

#[test]
fn breadcrumb_at_home_is_tilde_alone() {
    let theme = Theme::default();
    let spans = breadcrumb_path("/home/kim", "/home/kim", &theme);
    assert_eq!(texts(&spans), vec![" ~"]);
}

#[test]
fn breadcrumb_outside_home_shows_path() {
    let theme = Theme::default();
    let spans = breadcrumb_path("/etc/ssh", "/home/kim", &theme);
    assert_eq!(texts(&spans), vec![" /etc/ssh"]);
    assert_eq!(spans[0].style.fg, Some(ThemeColor::White));
}

#[test]
fn breadcrumb_names_in_nfc() {
    let theme = Theme::default();
    let spans = breadcrumb_path("/home/kim/cafe\u{301}", "/home/kim", &theme);
    assert_eq!(spans[2].text, "caf\u{e9}");
}

#[test]
fn breadcrumb_branch_clean_and_dirty() {
    let theme = Theme::default();
    let clean = BranchInfo { name: "main".to_string(), is_detached: false, commit_short: None, is_dirty: false };
    let s = breadcrumb_branch(&clean, &theme);
    assert_eq!(s.text, " \u{e0a0} main ");
    assert_eq!(s.style.fg, Some(ThemeColor::Green));
    assert!(s.style.bold);
    let dirty = BranchInfo { is_dirty: true, ..clean };
    let s = breadcrumb_branch(&dirty, &theme);
    assert_eq!(s.text, " \u{e0a0} main* ");
    assert_eq!(s.style.fg, Some(ThemeColor::Yellow));
}

#[test]
fn path_components_of_relative_path() {
    assert_eq!(path_components("a/b//c"), vec!["a", "b", "c"]);
}

use trefm::config::settings::{GeneralConfig, GitConfig, PreviewConfig, TerminalConfig};
use trefm::config::theme::{parse_color, try_parse_color, Theme, ThemeColor};

#[test]
fn default_theme_panel() {
    let theme = Theme::default();
    assert_eq!(theme.panel.dir_fg, "blue");
    assert_eq!(theme.panel.symlink_fg, "cyan");
    assert_eq!(theme.panel.hidden_fg, "dark_gray");
    assert_eq!(theme.panel.selected_fg, "yellow");
}

#[test]
fn default_theme_statusbar() {
    let theme = Theme::default();
    assert_eq!(theme.statusbar.bg, "white");
    assert_eq!(theme.statusbar.position_fg, "black");
    assert_eq!(theme.statusbar.branch_clean_fg, "green");
    assert_eq!(theme.statusbar.branch_dirty_fg, "yellow");
}

#[test]
fn default_theme_breadcrumb() {
    let theme = Theme::default();
    assert_eq!(theme.breadcrumb.bg, "dark_gray");
    assert_eq!(theme.breadcrumb.home_fg, "cyan");
}

#[test]
fn default_theme_preview() {
    let theme = Theme::default();
    assert_eq!(theme.preview.syntax_theme, "base16-eighties.dark");
    assert_eq!(theme.preview.error_fg, "red");
}

#[test]
fn default_theme_popup() {
    let theme = Theme::default();
    assert_eq!(theme.popup.border_fg, "yellow");
}

#[test]
fn default_theme_git() {
    let theme = Theme::default();
    assert_eq!(theme.git.modified_fg, "yellow");
    assert_eq!(theme.git.added_fg, "green");
    assert_eq!(theme.git.deleted_fg, "red");
}

#[test]
fn default_theme_terminal() {
    let theme = Theme::default();
    assert_eq!(theme.terminal.border_fg, "dark_gray");
    assert_eq!(theme.terminal.title_fg, "green");
}

#[test]
fn theme_clone() {
    let theme = Theme::default();
    let cloned = theme.clone();
    assert_eq!(cloned.panel.dir_fg, theme.panel.dir_fg);
}

#[test]
fn parse_color_named() {
    assert_eq!(parse_color("blue"), ThemeColor::Blue);
    assert_eq!(parse_color("red"), ThemeColor::Red);
    assert_eq!(parse_color("green"), ThemeColor::Green);
    assert_eq!(parse_color("yellow"), ThemeColor::Yellow);
    assert_eq!(parse_color("cyan"), ThemeColor::Cyan);
    assert_eq!(parse_color("magenta"), ThemeColor::Magenta);
    assert_eq!(parse_color("white"), ThemeColor::White);
    assert_eq!(parse_color("black"), ThemeColor::Black);
    assert_eq!(parse_color("gray"), ThemeColor::Gray);
    assert_eq!(parse_color("dark_gray"), ThemeColor::DarkGray);
    assert_eq!(parse_color("reset"), ThemeColor::Reset);
}

#[test]
fn parse_color_case_insensitive() {
    assert_eq!(parse_color("Blue"), ThemeColor::Blue);
    assert_eq!(parse_color("DARK_GRAY"), ThemeColor::DarkGray);
    assert_eq!(parse_color("DarkGray"), ThemeColor::DarkGray);
}

#[test]
fn parse_color_hex() {
    assert_eq!(parse_color("#ff0000"), ThemeColor::Rgb(255, 0, 0));
    assert_eq!(parse_color("#00ff00"), ThemeColor::Rgb(0, 255, 0));
    assert_eq!(parse_color("#0000ff"), ThemeColor::Rgb(0, 0, 255));
    assert_eq!(parse_color("#ff5500"), ThemeColor::Rgb(255, 85, 0));
}

#[test]
fn parse_color_unknown_returns_reset() {
    assert_eq!(parse_color("nonexistent"), ThemeColor::Reset);
    assert_eq!(parse_color(""), ThemeColor::Reset);
    assert_eq!(parse_color("#zzzzzz"), ThemeColor::Rgb(0, 0, 0));
}

#[test]
fn parse_color_light_variants() {
    assert_eq!(parse_color("light_red"), ThemeColor::LightRed);
    assert_eq!(parse_color("light_green"), ThemeColor::LightGreen);
    assert_eq!(parse_color("light_blue"), ThemeColor::LightBlue);
    assert_eq!(parse_color("light_cyan"), ThemeColor::LightCyan);
    assert_eq!(parse_color("light_magenta"), ThemeColor::LightMagenta);
    assert_eq!(parse_color("light_yellow"), ThemeColor::LightYellow);
}

#[test]
fn parse_color_grey_alias() {
    assert_eq!(parse_color("grey"), ThemeColor::Gray);
    assert_eq!(parse_color("dark_grey"), ThemeColor::DarkGray);
    assert_eq!(parse_color("darkgrey"), ThemeColor::DarkGray);
}

#[test]
fn parse_color_hex_pairs_follow_from_str_radix() {
    // A leading `+` is accepted by `u8::from_str_radix`; other junk reads as 0.
    assert_eq!(parse_color("#+f0a-1"), ThemeColor::Rgb(15, 10, 0));
    assert_eq!(parse_color("#FFaa00"), ThemeColor::Rgb(255, 170, 0));
    assert_eq!(parse_color("#ff00"), ThemeColor::Reset);
}

#[test]
fn try_parse_color_refuses_split_characters() {
    // `é` takes two bytes: the text is seven bytes, and byte 3 falls inside `é`.
    assert_eq!(try_parse_color("#aé123"), None);
    assert_eq!(try_parse_color("#éé12"), Some(ThemeColor::Rgb(0, 0, 18)));
    assert_eq!(try_parse_color("blue"), Some(ThemeColor::Blue));
}

#[test]
fn settings_defaults() {
    let g = GeneralConfig::default();
    assert!(!g.show_hidden);
    assert_eq!(g.default_sort, "name");
    assert!(g.sort_dir_first);
    assert!(g.confirm_delete);
    let p = PreviewConfig::default();
    assert!(p.enabled);
    assert_eq!(p.max_file_size, "10MB");
    assert_eq!(p.syntax_theme, "Dracula");
    assert_eq!(p.image_protocol, "auto");
    let git = GitConfig::default();
    assert!(git.enabled && git.show_status && git.show_branch);
    let t = TerminalConfig::default();
    assert_eq!(t.shell, "auto");
    assert!(t.sync_cwd);
    assert_eq!(t.height_percent, 30);
}

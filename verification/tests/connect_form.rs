use trefm::config::theme::ThemeColor;
use trefm::tui::remote_connect::{ConnectField, ConnectFormState};

fn texts(spans: &[trefm::tui::style::StyledSpan]) -> Vec<String> {
    spans.iter().map(|s| s.text.clone()).collect()
}

#[test]
fn form_lines_default_form() {
    let form = ConnectFormState::default();
    let lines = form.form_lines();
    assert_eq!(
        texts(&lines),
        vec![
            "",
            "> Host: _",
            "  Port: 22",
            "  Username: ",
            "  Password: ",
            "",
            "",
            "  Tab: next field | Enter: connect | Esc: cancel",
        ]
    );
    assert_eq!(lines[1].style.fg, Some(ThemeColor::Yellow));
    assert!(lines[1].style.bold);
    assert_eq!(lines[2].style.fg, Some(ThemeColor::White));
    assert_eq!(lines[7].style.fg, Some(ThemeColor::DarkGray));
}

#[test]
fn form_lines_masks_password_and_shows_state() {
    let mut form = ConnectFormState::default();
    form.host = "example.com".to_string();
    form.password = "héllo".to_string();
    form.focused = ConnectField::Password;
    form.is_connecting = true;
    form.error_message = Some("timeout".to_string());
    let t = texts(&form.form_lines());
    assert_eq!(t[1], "  Host: example.com");
    assert_eq!(t[4], "> Password: ******_");
    assert_eq!(t[6], "  Connecting...");
    assert_eq!(t[7], "  Error: timeout");
    assert_eq!(t.len(), 10);
}

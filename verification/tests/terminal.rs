use trefm::tui::input::{KeyCode, KeyEvent, CONTROL, SHIFT};
use trefm::tui::terminal::key_to_bytes;

#[test]
fn key_to_bytes_plain_characters() {
    assert_eq!(key_to_bytes(KeyEvent::new(KeyCode::Char('a'), 0)), vec![b'a']);
    assert_eq!(key_to_bytes(KeyEvent::new(KeyCode::Char('é'), 0)), "é".as_bytes().to_vec());
    assert_eq!(key_to_bytes(KeyEvent::new(KeyCode::Char('A'), SHIFT)), vec![b'A']);
}

#[test]
fn key_to_bytes_control_letters() {
    assert_eq!(key_to_bytes(KeyEvent::new(KeyCode::Char('c'), CONTROL)), vec![3]);
    assert_eq!(key_to_bytes(KeyEvent::new(KeyCode::Char('A'), CONTROL)), vec![1]);
    assert_eq!(key_to_bytes(KeyEvent::new(KeyCode::Char('z'), CONTROL)), vec![26]);
    // Not a letter: sent as the character itself.
    assert_eq!(key_to_bytes(KeyEvent::new(KeyCode::Char('1'), CONTROL)), vec![b'1']);
}

#[test]
fn key_to_bytes_special_keys() {
    assert_eq!(key_to_bytes(KeyEvent::new(KeyCode::Enter, 0)), vec![b'\r']);
    assert_eq!(key_to_bytes(KeyEvent::new(KeyCode::Backspace, 0)), vec![0x7f]);
    assert_eq!(key_to_bytes(KeyEvent::new(KeyCode::Tab, 0)), vec![b'\t']);
    assert_eq!(key_to_bytes(KeyEvent::new(KeyCode::Esc, 0)), vec![0x1b]);
    assert_eq!(key_to_bytes(KeyEvent::new(KeyCode::Up, 0)), b"\x1b[A".to_vec());
    assert_eq!(key_to_bytes(KeyEvent::new(KeyCode::Left, 0)), b"\x1b[D".to_vec());
    assert_eq!(key_to_bytes(KeyEvent::new(KeyCode::End, 0)), b"\x1b[F".to_vec());
    assert_eq!(key_to_bytes(KeyEvent::new(KeyCode::Delete, 0)), b"\x1b[3~".to_vec());
    assert_eq!(key_to_bytes(KeyEvent::new(KeyCode::PageDown, 0)), b"\x1b[6~".to_vec());
    assert_eq!(key_to_bytes(KeyEvent::new(KeyCode::BackTab, SHIFT)), b"\x1b[Z".to_vec());
    assert!(key_to_bytes(KeyEvent::new(KeyCode::F(5), 0)).is_empty());
    assert!(key_to_bytes(KeyEvent::new(KeyCode::Insert, 0)).is_empty());
}

use trefm::fs::entry::FileEntry;
use trefm::tui::icons::icon_for_entry;

fn make_file(name: &str) -> FileEntry {
    FileEntry::new(format!("/scratch/icons/{name}"), false, 0, None, false)
}

fn make_dir(name: &str) -> FileEntry {
    FileEntry::new(format!("/scratch/icons/{name}"), true, 0, None, false)
}

#[test]
fn dir_gets_folder_icon() {
    let entry = make_dir("src");
    assert_eq!(icon_for_entry(&entry), "\u{f07b} ");
}

#[test]
fn rust_file_gets_rust_icon() {
    let entry = make_file("main.rs");
    assert_eq!(icon_for_entry(&entry), "\u{e7a8} ");
}

#[test]
fn python_file_gets_python_icon() {
    let entry = make_file("script.py");
    assert_eq!(icon_for_entry(&entry), "\u{e73c} ");
}

#[test]
fn unknown_ext_gets_default_icon() {
    let entry = make_file("data.xyz");
    assert_eq!(icon_for_entry(&entry), "\u{f15b} ");
}

#[test]
fn special_filename_dockerfile() {
    let entry = make_file("Dockerfile");
    assert_eq!(icon_for_entry(&entry), "\u{f308} ");
}

#[test]
fn markdown_file_gets_markdown_icon() {
    let entry = make_file("README.md");
    // Special filename match takes precedence
    assert_eq!(icon_for_entry(&entry), "\u{e73e} ");
}

#[test]
fn image_file_gets_image_icon() {
    let entry = make_file("photo.png");
    assert_eq!(icon_for_entry(&entry), "\u{f1c5} ");
}

#[test]
fn archive_file_gets_archive_icon() {
    let entry = make_file("archive.zip");
    assert_eq!(icon_for_entry(&entry), "\u{f410} ");
}


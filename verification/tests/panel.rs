use trefm::fs::entry::FileEntry;
use trefm::nav::panel::{Panel, SinglePanel};

/// An in-memory stand-in for a scratch directory: the entries "written"
/// into it are listed as a directory read would list them.
struct TempDir {
    dir: String,
    items: std::cell::RefCell<Vec<FileEntry>>,
}

static NEXT_DIR: std::sync::atomic::AtomicUsize = std::sync::atomic::AtomicUsize::new(0);
static CLOCK: std::sync::atomic::AtomicI64 = std::sync::atomic::AtomicI64::new(1_000_000);

impl TempDir {
    fn new() -> Result<Self, ()> {
        let n = NEXT_DIR.fetch_add(1, std::sync::atomic::Ordering::SeqCst);
        Ok(TempDir { dir: format!("/scratch/t{n}"), items: std::cell::RefCell::new(Vec::new()) })
    }

    fn path(&self) -> String {
        self.dir.clone()
    }

    fn write(&self, name: &str, content: &str) {
        let t = CLOCK.fetch_add(1_000, std::sync::atomic::Ordering::SeqCst) as i128;
        let path = format!("{}/{}", self.dir, name);
        self.items.borrow_mut().push(FileEntry::new(path, false, content.len() as u64, Some(t), false));
    }

    fn mkdir(&self, name: &str) {
        let t = CLOCK.fetch_add(1_000, std::sync::atomic::Ordering::SeqCst) as i128;
        let path = format!("{}/{}", self.dir, name);
        self.items.borrow_mut().push(FileEntry::new(path, true, 4096, Some(t), false));
    }

    fn read_directory(&self) -> Vec<FileEntry> {
        self.items.borrow().clone()
    }
}


fn make_entries(tmp: &TempDir, names: &[&str]) -> Vec<FileEntry> {
    for name in names {
        tmp.write(name, "");
    }
    tmp.read_directory()
}

#[test]
fn new_panel_starts_at_index_zero() {
    let tmp = TempDir::new().unwrap();
    let entries = make_entries(&tmp, &["a.txt", "b.txt"]);
    let panel = SinglePanel::new(tmp.path(), entries);

    assert_eq!(panel.selected_index(), 0);
    assert_eq!(panel.current_dir(), tmp.path());
}

#[test]
fn new_panel_with_empty_entries() {
    let tmp = TempDir::new().unwrap();
    let panel = SinglePanel::new(tmp.path(), vec![]);

    assert_eq!(panel.selected_index(), 0);
    assert!(panel.entries().is_empty());
    assert!(panel.selected_entry().is_none());
}

#[test]
fn selected_entry_returns_correct_item() {
    let tmp = TempDir::new().unwrap();
    let entries = make_entries(&tmp, &["a.txt", "b.txt", "c.txt"]);
    let panel = SinglePanel::new(tmp.path(), entries);

    let entry = panel.selected_entry().unwrap();
    assert_eq!(panel.selected_index(), 0);
    assert!(!entry.name().is_empty());
}

#[test]
fn with_selection_clamps_to_bounds() {
    let tmp = TempDir::new().unwrap();
    let entries = make_entries(&tmp, &["a.txt", "b.txt"]);
    let panel = SinglePanel::new(tmp.path(), entries);

    let panel = panel.with_selection(100);
    assert_eq!(panel.selected_index(), 1);
}

#[test]
fn with_selection_on_empty_entries() {
    let tmp = TempDir::new().unwrap();
    let panel = SinglePanel::new(tmp.path(), vec![]);

    let panel = panel.with_selection(5);
    assert_eq!(panel.selected_index(), 0);
}

#[test]
fn with_entries_resets_selection_if_needed() {
    let tmp = TempDir::new().unwrap();
    let entries = make_entries(&tmp, &["a.txt", "b.txt", "c.txt"]);
    let panel = SinglePanel::new(tmp.path(), entries);
    let panel = panel.with_selection(2);

    let tmp2 = TempDir::new().unwrap();
    let fewer = make_entries(&tmp2, &["x.txt"]);
    let panel = panel.with_entries(fewer);

    assert_eq!(panel.selected_index(), 0);
    assert_eq!(panel.entries().len(), 1);
}

#[test]
fn with_entries_empty_resets_to_zero() {
    let tmp = TempDir::new().unwrap();
    let entries = make_entries(&tmp, &["a.txt"]);
    let panel = SinglePanel::new(tmp.path(), entries);

    let panel = panel.with_entries(vec![]);
    assert_eq!(panel.selected_index(), 0);
}

#[test]
fn with_directory_pushes_history() {
    let tmp = TempDir::new().unwrap();
    let entries = make_entries(&tmp, &["a.txt"]);
    let panel = SinglePanel::new(tmp.path(), entries);

    assert!(!panel.can_go_back());

    let tmp2 = TempDir::new().unwrap();
    let new_entries = make_entries(&tmp2, &["b.txt"]);
    let panel = panel.with_directory(tmp2.path(), new_entries);

    assert!(panel.can_go_back());
    assert_eq!(panel.current_dir(), tmp2.path());
    assert_eq!(panel.selected_index(), 0);
}

#[test]
fn move_up_at_zero_stays_at_zero() {
    let tmp = TempDir::new().unwrap();
    let entries = make_entries(&tmp, &["a.txt", "b.txt"]);
    let panel = SinglePanel::new(tmp.path(), entries);

    let panel = panel.move_up();
    assert_eq!(panel.selected_index(), 0);
}

#[test]
fn move_up_decrements_index() {
    let tmp = TempDir::new().unwrap();
    let entries = make_entries(&tmp, &["a.txt", "b.txt", "c.txt"]);
    let panel = SinglePanel::new(tmp.path(), entries);
    let panel = panel.with_selection(2);

    let panel = panel.move_up();
    assert_eq!(panel.selected_index(), 1);
}

#[test]
fn move_down_increments_index() {
    let tmp = TempDir::new().unwrap();
    let entries = make_entries(&tmp, &["a.txt", "b.txt", "c.txt"]);
    let panel = SinglePanel::new(tmp.path(), entries);

    let panel = panel.move_down();
    assert_eq!(panel.selected_index(), 1);
}

#[test]
fn move_down_at_last_stays_at_last() {
    let tmp = TempDir::new().unwrap();
    let entries = make_entries(&tmp, &["a.txt", "b.txt"]);
    let panel = SinglePanel::new(tmp.path(), entries);
    let panel = panel.with_selection(1);

    let panel = panel.move_down();
    assert_eq!(panel.selected_index(), 1);
}

#[test]
fn move_down_on_empty_stays_at_zero() {
    let tmp = TempDir::new().unwrap();
    let panel = SinglePanel::new(tmp.path(), vec![]);

    let panel = panel.move_down();
    assert_eq!(panel.selected_index(), 0);
}

#[test]
fn go_to_first() {
    let tmp = TempDir::new().unwrap();
    let entries = make_entries(&tmp, &["a.txt", "b.txt", "c.txt"]);
    let panel = SinglePanel::new(tmp.path(), entries);
    let panel = panel.with_selection(2);

    let panel = panel.go_to_first();
    assert_eq!(panel.selected_index(), 0);
}

#[test]
fn go_to_last() {
    let tmp = TempDir::new().unwrap();
    let entries = make_entries(&tmp, &["a.txt", "b.txt", "c.txt"]);
    let panel = SinglePanel::new(tmp.path(), entries);

    let panel = panel.go_to_last();
    assert_eq!(panel.selected_index(), 2);
}

#[test]
fn go_to_last_on_empty() {
    let tmp = TempDir::new().unwrap();
    let panel = SinglePanel::new(tmp.path(), vec![]);

    let panel = panel.go_to_last();
    assert_eq!(panel.selected_index(), 0);
}

#[test]
fn go_back_without_history_returns_none() {
    let tmp = TempDir::new().unwrap();
    let entries = make_entries(&tmp, &["a.txt"]);
    let panel = SinglePanel::new(tmp.path(), entries);

    assert!(panel.go_back().is_none());
}

#[test]
fn go_back_returns_previous_dir() {
    let tmp1 = TempDir::new().unwrap();
    let entries1 = make_entries(&tmp1, &["a.txt"]);
    let panel = SinglePanel::new(tmp1.path(), entries1);

    let tmp2 = TempDir::new().unwrap();
    let entries2 = make_entries(&tmp2, &["b.txt"]);
    let panel = panel.with_directory(tmp2.path(), entries2);

    let (panel, path) = panel.go_back().unwrap();
    assert_eq!(path, tmp1.path());
    assert_eq!(panel.selected_index(), 0);
}

#[test]
fn go_forward_without_history_returns_none() {
    let tmp = TempDir::new().unwrap();
    let entries = make_entries(&tmp, &["a.txt"]);
    let panel = SinglePanel::new(tmp.path(), entries);

    assert!(panel.go_forward().is_none());
}

#[test]
fn go_forward_after_go_back() {
    let tmp1 = TempDir::new().unwrap();
    let entries1 = make_entries(&tmp1, &["a.txt"]);
    let panel = SinglePanel::new(tmp1.path(), entries1);

    let tmp2 = TempDir::new().unwrap();
    let entries2 = make_entries(&tmp2, &["b.txt"]);
    let panel = panel.with_directory(tmp2.path(), entries2);

    let (panel, _) = panel.go_back().unwrap();
    assert!(panel.can_go_forward());

    let (panel, path) = panel.go_forward().unwrap();
    assert_eq!(path, tmp1.path());
    assert!(!panel.can_go_forward());
}

#[test]
fn panel_clone_is_independent() {
    let tmp = TempDir::new().unwrap();
    let entries = make_entries(&tmp, &["a.txt"]);
    let panel = SinglePanel::new(tmp.path(), entries);

    let cloned = panel.clone();
    assert_eq!(cloned.selected_index(), panel.selected_index());
    assert_eq!(cloned.current_dir(), panel.current_dir());
    assert_eq!(cloned.entries().len(), panel.entries().len());
}

#[test]
fn with_selection_preserves_current_dir() {
    let tmp = TempDir::new().unwrap();
    let entries = make_entries(&tmp, &["a.txt", "b.txt"]);
    let panel = SinglePanel::new(tmp.path(), entries);

    let panel = panel.with_selection(1);
    assert_eq!(panel.current_dir(), tmp.path());
    assert_eq!(panel.selected_index(), 1);
}

#[test]
fn with_entries_preserves_current_dir() {
    let tmp = TempDir::new().unwrap();
    let entries = make_entries(&tmp, &["a.txt"]);
    let panel = SinglePanel::new(tmp.path(), entries);

    let tmp2 = TempDir::new().unwrap();
    let new_entries = make_entries(&tmp2, &["x.txt", "y.txt"]);
    let panel = panel.with_entries(new_entries);

    assert_eq!(panel.current_dir(), tmp.path());
    assert_eq!(panel.entries().len(), 2);
}


use trefm::fs::entry::FileEntry;
use trefm::nav::filter::{filter_by_extension, filter_hidden, fuzzy_filter, sort_entries, SortDirection, SortField};

/// An in-memory stand-in for a scratch directory: the entries "written"
/// into it are listed as a directory read would list them.
struct TempDir {
    dir: String,
    items: std::cell::RefCell<Vec<FileEntry>>,
}

static NEXT_DIR: std::sync::atomic::AtomicUsize = std::sync::atomic::AtomicUsize::new(0);
static CLOCK: std::sync::atomic::AtomicI64 = std::sync::atomic::AtomicI64::new(1_000_000);

impl TempDir {
    fn new() -> Result<Self, ()> {
        let n = NEXT_DIR.fetch_add(1, std::sync::atomic::Ordering::SeqCst);
        Ok(TempDir { dir: format!("/scratch/t{n}"), items: std::cell::RefCell::new(Vec::new()) })
    }

    fn path(&self) -> String {
        self.dir.clone()
    }

    fn write(&self, name: &str, content: &str) {
        let t = CLOCK.fetch_add(1_000, std::sync::atomic::Ordering::SeqCst) as i128;
        let path = format!("{}/{}", self.dir, name);
        self.items.borrow_mut().push(FileEntry::new(path, false, content.len() as u64, Some(t), false));
    }

    fn mkdir(&self, name: &str) {
        let t = CLOCK.fetch_add(1_000, std::sync::atomic::Ordering::SeqCst) as i128;
        let path = format!("{}/{}", self.dir, name);
        self.items.borrow_mut().push(FileEntry::new(path, true, 4096, Some(t), false));
    }

    fn read_directory(&self) -> Vec<FileEntry> {
        self.items.borrow().clone()
    }
}


fn create_test_entries(tmp: &TempDir) -> Vec<FileEntry> {
    tmp.write("banana.txt", "12345");
    tmp.write("apple.rs", "ab");
    tmp.write("cherry.md", "abcdefghij");
    tmp.mkdir("docs");
    tmp.mkdir("src");

    tmp.read_directory()
}

#[test]
fn sort_by_name_ascending() {
    let tmp = TempDir::new().unwrap();
    let entries = create_test_entries(&tmp);

    let sorted = sort_entries(&entries, SortField::Name, SortDirection::Ascending, false);

    let names: Vec<&str> = sorted.iter().map(|e| e.name()).collect();
    assert_eq!(
        names,
        vec!["apple.rs", "banana.txt", "cherry.md", "docs", "src"]
    );
}

#[test]
fn sort_by_name_descending() {
    let tmp = TempDir::new().unwrap();
    let entries = create_test_entries(&tmp);

    let sorted = sort_entries(&entries, SortField::Name, SortDirection::Descending, false);

    let names: Vec<&str> = sorted.iter().map(|e| e.name()).collect();
    assert_eq!(
        names,
        vec!["src", "docs", "cherry.md", "banana.txt", "apple.rs"]
    );
}

#[test]
fn sort_by_name_dirs_first() {
    let tmp = TempDir::new().unwrap();
    let entries = create_test_entries(&tmp);

    let sorted = sort_entries(&entries, SortField::Name, SortDirection::Ascending, true);

    let names: Vec<&str> = sorted.iter().map(|e| e.name()).collect();
    assert_eq!(names[0], "docs");
    assert_eq!(names[1], "src");
    assert_eq!(names[2], "apple.rs");
    assert_eq!(names[3], "banana.txt");
    assert_eq!(names[4], "cherry.md");
}

#[test]
fn sort_by_size_ascending() {
    let tmp = TempDir::new().unwrap();
    let entries = create_test_entries(&tmp);

    let sorted = sort_entries(&entries, SortField::Size, SortDirection::Ascending, false);

    let file_entries: Vec<_> = sorted.iter().filter(|e| !e.is_dir()).collect();
    assert!(file_entries[0].size() <= file_entries[1].size());
    assert!(file_entries[1].size() <= file_entries[2].size());
}

#[test]
fn sort_by_size_descending() {
    let tmp = TempDir::new().unwrap();
    let entries = create_test_entries(&tmp);

    let sorted = sort_entries(&entries, SortField::Size, SortDirection::Descending, false);

    let file_entries: Vec<_> = sorted.iter().filter(|e| !e.is_dir()).collect();
    assert!(file_entries[0].size() >= file_entries[1].size());
    assert!(file_entries[1].size() >= file_entries[2].size());
}

#[test]
fn sort_by_size_dirs_first_ascending() {
    let tmp = TempDir::new().unwrap();
    let entries = create_test_entries(&tmp);

    let sorted = sort_entries(&entries, SortField::Size, SortDirection::Ascending, true);

    assert!(sorted[0].is_dir());
    assert!(sorted[1].is_dir());
    assert!(!sorted[2].is_dir());
    assert!(sorted[2].size() <= sorted[3].size());
    assert!(sorted[3].size() <= sorted[4].size());
}

#[test]
fn sort_by_type_ascending() {
    let tmp = TempDir::new().unwrap();
    let entries = create_test_entries(&tmp);

    let sorted = sort_entries(&entries, SortField::Type, SortDirection::Ascending, false);

    let extensions: Vec<String> = sorted
        .iter()
        .map(|e| {
            std::path::Path::new(e.path())
                .extension()
                .map(|ext| ext.to_string_lossy().to_lowercase())
                .unwrap_or_default()
        })
        .collect();

    for i in 1..extensions.len() {
        assert!(
            extensions[i - 1] <= extensions[i],
            "Expected {:?} <= {:?}",
            extensions[i - 1],
            extensions[i]
        );
    }
}

#[test]
fn sort_by_date_ascending() {
    let tmp = TempDir::new().unwrap();
    tmp.write("first.txt", "1");
    tmp.write("second.txt", "2");

    let entries = tmp.read_directory();
    let sorted = sort_entries(&entries, SortField::Date, SortDirection::Ascending, false);

    assert!(sorted[0].modified().is_some());
    assert!(sorted[1].modified().is_some());
    assert!(sorted[0].modified() <= sorted[1].modified());
}

#[test]
fn sort_does_not_mutate_input() {
    let tmp = TempDir::new().unwrap();
    let entries = create_test_entries(&tmp);
    let original_names: Vec<String> = entries.iter().map(|e| e.name().to_owned()).collect();

    let _sorted = sort_entries(&entries, SortField::Name, SortDirection::Descending, false);

    let after_names: Vec<String> = entries.iter().map(|e| e.name().to_owned()).collect();
    assert_eq!(original_names, after_names);
}

#[test]
fn sort_single_entry() {
    let tmp = TempDir::new().unwrap();
    tmp.write("only.txt", "data");

    let entries = tmp.read_directory();
    let sorted = sort_entries(&entries, SortField::Name, SortDirection::Ascending, false);

    assert_eq!(sorted.len(), 1);
    assert_eq!(sorted[0].name(), "only.txt");
}

#[test]
fn sort_case_insensitive_name() {
    let tmp = TempDir::new().unwrap();
    tmp.write("Banana.txt", "");
    tmp.write("apple.txt", "");
    tmp.write("Cherry.txt", "");

    let entries = tmp.read_directory();
    let sorted = sort_entries(&entries, SortField::Name, SortDirection::Ascending, false);

    let names: Vec<&str> = sorted.iter().map(|e| e.name()).collect();
    assert_eq!(names, vec!["apple.txt", "Banana.txt", "Cherry.txt"]);
}

#[test]
fn sort_dirs_first_with_descending() {
    let tmp = TempDir::new().unwrap();
    tmp.write("z_file.txt", "");
    tmp.mkdir("a_dir");
    tmp.write("a_file.txt", "");
    tmp.mkdir("z_dir");

    let entries = tmp.read_directory();
    let sorted = sort_entries(&entries, SortField::Name, SortDirection::Descending, true);

    assert!(sorted[0].is_dir());
    assert!(sorted[1].is_dir());
    assert!(!sorted[2].is_dir());
    assert!(!sorted[3].is_dir());

    assert_eq!(sorted[0].name(), "z_dir");
    assert_eq!(sorted[1].name(), "a_dir");
    assert_eq!(sorted[2].name(), "z_file.txt");
    assert_eq!(sorted[3].name(), "a_file.txt");
}

// =====================================================
// fuzzy_filter tests
// =====================================================

#[test]
fn fuzzy_filter_exact_match() {
    let tmp = TempDir::new().unwrap();
    tmp.write("README.md", "");
    tmp.write("other.txt", "");
    let entries = tmp.read_directory();

    let matches = fuzzy_filter(&entries, "README.md");

    assert!(!matches.is_empty());
    assert_eq!(matches[0].entry().name(), "README.md");
}

#[test]
fn fuzzy_filter_partial_match() {
    let tmp = TempDir::new().unwrap();
    tmp.write("my_document.txt", "");
    tmp.write("other.rs", "");
    let entries = tmp.read_directory();

    let matches = fuzzy_filter(&entries, "doc");

    assert!(!matches.is_empty());
    assert_eq!(matches[0].entry().name(), "my_document.txt");
}

#[test]
fn fuzzy_filter_no_match() {
    let tmp = TempDir::new().unwrap();
    tmp.write("alpha.txt", "");
    tmp.write("beta.rs", "");
    let entries = tmp.read_directory();

    let matches = fuzzy_filter(&entries, "zzzzzzz");

    assert!(matches.is_empty());
}

#[test]
fn fuzzy_filter_empty_query_returns_all() {
    let tmp = TempDir::new().unwrap();
    tmp.write("a.txt", "");
    tmp.write("b.txt", "");
    tmp.write("c.txt", "");
    let entries = tmp.read_directory();

    let matches = fuzzy_filter(&entries, "");

    assert_eq!(matches.len(), entries.len());
    for m in &matches {
        assert_eq!(m.score(), 0);
        assert!(m.matched_indices().is_empty());
    }
}

#[test]
fn fuzzy_filter_scoring_best_match_first() {
    let tmp = TempDir::new().unwrap();
    tmp.write("foobar.txt", "");
    tmp.write("foo.txt", "");
    tmp.write("xfooy.txt", "");
    let entries = tmp.read_directory();

    let matches = fuzzy_filter(&entries, "foo");

    assert!(matches.len() >= 2);
    // Best match should be first (highest score)
    assert!(matches[0].score() >= matches[1].score());
}

#[test]
fn fuzzy_filter_case_insensitive() {
    let tmp = TempDir::new().unwrap();
    tmp.write("MyFile.txt", "");
    let entries = tmp.read_directory();

    let matches = fuzzy_filter(&entries, "myfile");

    assert!(!matches.is_empty());
    assert_eq!(matches[0].entry().name(), "MyFile.txt");
}

#[test]
fn fuzzy_filter_unicode_names() {
    let tmp = TempDir::new().unwrap();
    tmp.write("한글파일.txt", "");
    tmp.write("other.txt", "");
    let entries = tmp.read_directory();

    let matches = fuzzy_filter(&entries, "한글");

    assert!(!matches.is_empty());
    assert_eq!(matches[0].entry().name(), "한글파일.txt");
}

#[test]
fn fuzzy_filter_empty_entries() {
    let entries: Vec<FileEntry> = vec![];

    let matches = fuzzy_filter(&entries, "foo");

    assert!(matches.is_empty());
}

#[test]
fn fuzzy_filter_matched_indices_present() {
    let tmp = TempDir::new().unwrap();
    tmp.write("hello.txt", "");
    let entries = tmp.read_directory();

    let matches = fuzzy_filter(&entries, "hel");

    assert!(!matches.is_empty());
    assert!(!matches[0].matched_indices().is_empty());
}

#[test]
fn fuzzy_filter_does_not_mutate_input() {
    let tmp = TempDir::new().unwrap();
    tmp.write("a.txt", "");
    tmp.write("b.txt", "");
    let entries = tmp.read_directory();
    let original_len = entries.len();

    let _matches = fuzzy_filter(&entries, "a");

    assert_eq!(entries.len(), original_len);
}

// =====================================================
// filter_by_extension tests
// =====================================================

#[test]
fn filter_by_extension_single_ext() {
    let tmp = TempDir::new().unwrap();
    let entries = create_test_entries(&tmp);

    let filtered = filter_by_extension(&entries, &["rs"]);

    let file_entries: Vec<_> = filtered.iter().filter(|e| !e.is_dir()).collect();
    assert_eq!(file_entries.len(), 1);
    assert_eq!(file_entries[0].name(), "apple.rs");
}

#[test]
fn filter_by_extension_multiple_exts() {
    let tmp = TempDir::new().unwrap();
    let entries = create_test_entries(&tmp);

    let filtered = filter_by_extension(&entries, &["rs", "md"]);

    let file_entries: Vec<_> = filtered.iter().filter(|e| !e.is_dir()).collect();
    assert_eq!(file_entries.len(), 2);
}

#[test]
fn filter_by_extension_case_insensitive() {
    let tmp = TempDir::new().unwrap();
    tmp.write("image.PNG", "");
    tmp.write("photo.png", "");
    tmp.write("doc.txt", "");
    let entries = tmp.read_directory();

    let filtered = filter_by_extension(&entries, &["png"]);

    let file_entries: Vec<_> = filtered.iter().filter(|e| !e.is_dir()).collect();
    assert_eq!(file_entries.len(), 2);
}

#[test]
fn filter_by_extension_dirs_pass_through() {
    let tmp = TempDir::new().unwrap();
    let entries = create_test_entries(&tmp);

    let filtered = filter_by_extension(&entries, &["rs"]);

    let dir_entries: Vec<_> = filtered.iter().filter(|e| e.is_dir()).collect();
    assert_eq!(dir_entries.len(), 2); // docs and src
}

#[test]
fn filter_by_extension_no_matches() {
    let tmp = TempDir::new().unwrap();
    let entries = create_test_entries(&tmp);

    let filtered = filter_by_extension(&entries, &["xyz"]);

    // Only directories should remain
    assert!(filtered.iter().all(|e| e.is_dir()));
}

#[test]
fn filter_by_extension_empty_extensions_list() {
    let tmp = TempDir::new().unwrap();
    let entries = create_test_entries(&tmp);

    let filtered = filter_by_extension(&entries, &[]);

    // Only directories pass through
    assert!(filtered.iter().all(|e| e.is_dir()));
}

#[test]
fn filter_by_extension_does_not_mutate_input() {
    let tmp = TempDir::new().unwrap();
    let entries = create_test_entries(&tmp);
    let original_len = entries.len();

    let _filtered = filter_by_extension(&entries, &["rs"]);

    assert_eq!(entries.len(), original_len);
}

#[test]
fn filter_by_extension_no_extension_file() {
    let tmp = TempDir::new().unwrap();
    tmp.write("Makefile", "");
    tmp.write("build.rs", "");
    let entries = tmp.read_directory();

    let filtered = filter_by_extension(&entries, &["rs"]);

    let file_entries: Vec<_> = filtered.iter().filter(|e| !e.is_dir()).collect();
    assert_eq!(file_entries.len(), 1);
    assert_eq!(file_entries[0].name(), "build.rs");
}

// =====================================================
// filter_hidden tests
// =====================================================

#[test]
fn filter_hidden_hides_dotfiles() {
    let tmp = TempDir::new().unwrap();
    tmp.write(".hidden", "");
    tmp.write(".secret", "");
    tmp.write("visible.txt", "");
    let entries = tmp.read_directory();

    let filtered = filter_hidden(&entries, false);

    assert_eq!(filtered.len(), 1);
    assert_eq!(filtered[0].name(), "visible.txt");
}

#[test]
fn filter_hidden_show_all() {
    let tmp = TempDir::new().unwrap();
    tmp.write(".hidden", "");
    tmp.write("visible.txt", "");
    let entries = tmp.read_directory();

    let filtered = filter_hidden(&entries, true);

    assert_eq!(filtered.len(), 2);
}

#[test]
fn filter_hidden_no_hidden_files_returns_all() {
    let tmp = TempDir::new().unwrap();
    tmp.write("a.txt", "");
    tmp.write("b.txt", "");
    let entries = tmp.read_directory();

    let filtered = filter_hidden(&entries, false);

    assert_eq!(filtered.len(), 2);
}

#[test]
fn filter_hidden_does_not_mutate_input() {
    let tmp = TempDir::new().unwrap();
    tmp.write(".hidden", "");
    tmp.write("visible.txt", "");
    let entries = tmp.read_directory();
    let original_len = entries.len();

    let _filtered = filter_hidden(&entries, false);

    assert_eq!(entries.len(), original_len);
}

#[test]
fn filter_hidden_directory_with_dot_prefix() {
    let tmp = TempDir::new().unwrap();
    tmp.mkdir(".git");
    tmp.mkdir("src");
    let entries = tmp.read_directory();

    let filtered = filter_hidden(&entries, false);

    assert_eq!(filtered.len(), 1);
    assert_eq!(filtered[0].name(), "src");
}


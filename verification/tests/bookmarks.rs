use trefm::nav::bookmarks::Bookmarks;

fn s(x: &str) -> String {
    x.to_string()
}

#[test]
fn new_bookmarks_is_empty() {
    let bm = Bookmarks::new();
    assert!(bm.is_empty());
    assert_eq!(bm.len(), 0);
}

#[test]
fn default_bookmarks_is_empty() {
    let bm = Bookmarks::default();
    assert!(bm.is_empty());
}

#[test]
fn with_bookmark_adds_entry() {
    let bm = Bookmarks::new().with_bookmark(s("projects"), s("/home/user/projects"));
    assert_eq!(bm.len(), 1);
    assert!(bm.contains("projects"));
    assert_eq!(bm.get("projects"), Some(&s("/home/user/projects")));
}

#[test]
fn with_bookmark_immutability() {
    let bm1 = Bookmarks::new();
    let bm2 = bm1.clone().with_bookmark(s("docs"), s("/docs"));
    assert!(bm1.is_empty());
    assert_eq!(bm2.len(), 1);
}

#[test]
fn with_bookmark_updates_existing() {
    let bm = Bookmarks::new()
        .with_bookmark(s("home"), s("/old/home"))
        .with_bookmark(s("home"), s("/new/home"));
    assert_eq!(bm.len(), 1);
    assert_eq!(bm.get("home"), Some(&s("/new/home")));
}

#[test]
fn with_bookmark_multiple_entries() {
    let bm = Bookmarks::new()
        .with_bookmark(s("a"), s("/a"))
        .with_bookmark(s("b"), s("/b"))
        .with_bookmark(s("c"), s("/c"));
    assert_eq!(bm.len(), 3);
}

#[test]
fn without_bookmark_removes_entry() {
    let bm = Bookmarks::new()
        .with_bookmark(s("a"), s("/a"))
        .with_bookmark(s("b"), s("/b"))
        .without_bookmark("a");
    assert_eq!(bm.len(), 1);
    assert!(!bm.contains("a"));
    assert!(bm.contains("b"));
}

#[test]
fn without_bookmark_immutability() {
    let bm1 = Bookmarks::new().with_bookmark(s("x"), s("/x"));
    let bm2 = bm1.clone().without_bookmark("x");
    assert_eq!(bm1.len(), 1);
    assert_eq!(bm2.len(), 0);
}

#[test]
fn without_bookmark_nonexistent_label_no_panic() {
    let bm = Bookmarks::new()
        .with_bookmark(s("a"), s("/a"))
        .without_bookmark("nonexistent");
    assert_eq!(bm.len(), 1);
}

#[test]
fn get_existing_bookmark() {
    let bm = Bookmarks::new().with_bookmark(s("dl"), s("/Downloads"));
    assert_eq!(bm.get("dl"), Some(&s("/Downloads")));
}

#[test]
fn get_missing_bookmark_returns_none() {
    let bm = Bookmarks::new();
    assert_eq!(bm.get("nonexistent"), None);
}

#[test]
fn contains_true_for_existing() {
    let bm = Bookmarks::new().with_bookmark(s("home"), s("/home"));
    assert!(bm.contains("home"));
}

#[test]
fn contains_false_for_missing() {
    let bm = Bookmarks::new();
    assert!(!bm.contains("anything"));
}

#[test]
fn labels_returns_all_in_sorted_order() {
    let bm = Bookmarks::new()
        .with_bookmark(s("zebra"), s("/z"))
        .with_bookmark(s("alpha"), s("/a"))
        .with_bookmark(s("middle"), s("/m"));
    let labels = bm.labels();
    assert_eq!(labels, vec!["alpha", "middle", "zebra"]);
}

#[test]
fn labels_empty_bookmarks() {
    let bm = Bookmarks::new();
    let labels = bm.labels();
    assert!(labels.is_empty());
}

#[test]
fn iter_returns_all_entries() {
    let bm = Bookmarks::new()
        .with_bookmark(s("a"), s("/a"))
        .with_bookmark(s("b"), s("/b"));
    let entries: Vec<_> = bm.iter().iter().collect();
    assert_eq!(entries.len(), 2);
}

#[test]
fn iter_is_sorted() {
    let bm = Bookmarks::new()
        .with_bookmark(s("z"), s("/z"))
        .with_bookmark(s("a"), s("/a"));
    let keys: Vec<_> = bm.iter().iter().map(|(k, _)| k.as_str()).collect();
    assert_eq!(keys, vec!["a", "z"]);
}

#[test]
fn bookmarks_clone_is_independent() {
    let bm1 = Bookmarks::new().with_bookmark(s("a"), s("/a"));
    let bm2 = bm1.clone();
    assert_eq!(bm1, bm2);
}

#[test]
fn bookmarks_debug_format() {
    let bm = Bookmarks::new().with_bookmark(s("test"), s("/test"));
    let debug = format!("{:?}", bm);
    assert!(debug.contains("Bookmarks"));
}

#[test]
fn bookmarks_eq_same_content() {
    let bm1 = Bookmarks::new().with_bookmark(s("a"), s("/a"));
    let bm2 = Bookmarks::new().with_bookmark(s("a"), s("/a"));
    assert_eq!(bm1, bm2);
}

#[test]
fn bookmarks_ne_different_content() {
    let bm1 = Bookmarks::new().with_bookmark(s("a"), s("/a"));
    let bm2 = Bookmarks::new().with_bookmark(s("b"), s("/b"));
    assert_ne!(bm1, bm2);
}

#[test]
fn read_after_write_and_remove() {
    let bm = Bookmarks::new()
        .with_bookmark(s("k"), s("/k"))
        .with_bookmark(s("m"), s("/m"));
    assert_eq!(bm.get("k"), Some(&s("/k")));
    let removed = bm.without_bookmark("k");
    assert_eq!(removed.get("k"), None);
    assert_eq!(removed.get("m"), Some(&s("/m")));
}

#[test]
fn many_bookmarks_stay_sorted_and_unique() {
    let mut bm = Bookmarks::new();
    for i in (0..50).rev() {
        bm = bm.with_bookmark(format!("bm_{i:02}"), format!("/path/{i}"));
    }
    bm = bm.with_bookmark(s("bm_07"), s("/again"));
    assert_eq!(bm.len(), 50);
    let labels = bm.labels();
    for w in labels.windows(2) {
        assert!(w[0] < w[1]);
    }
    assert_eq!(bm.get("bm_07"), Some(&s("/again")));
}

use trefm::nav::history::History;

#[test]
fn new_history_is_empty() {
    let history = History::new();
    assert!(!history.can_go_back());
    assert!(!history.can_go_forward());
}

#[test]
fn push_enables_go_back() {
    let history = History::new();
    let history = history.push("/home".to_string());

    assert!(history.can_go_back());
    assert!(!history.can_go_forward());
}

#[test]
fn push_does_not_mutate_original() {
    let history = History::new();
    let _new_history = history.push("/home".to_string());

    assert!(!history.can_go_back());
}

#[test]
fn go_back_returns_pushed_path() {
    let history = History::new();
    let history = history.push("/home".to_string());

    let (new_history, path) = history.go_back().unwrap();
    assert_eq!(path, "/home");
    assert!(!new_history.can_go_back());
    assert!(new_history.can_go_forward());
}

#[test]
fn go_back_on_empty_returns_none() {
    let history = History::new();
    assert!(history.go_back().is_none());
}

#[test]
fn history_go_forward_after_go_back() {
    let history = History::new();
    let history = history.push("/home".to_string());

    let (history, _) = history.go_back().unwrap();
    let (history, path) = history.go_forward().unwrap();

    assert_eq!(path, "/home");
    assert!(history.can_go_back());
    assert!(!history.can_go_forward());
}

#[test]
fn go_forward_on_empty_returns_none() {
    let history = History::new();
    assert!(history.go_forward().is_none());
}

#[test]
fn push_clears_forward_stack() {
    let history = History::new();
    let history = history.push("/home".to_string());
    let history = history.push("/projects".to_string());

    let (history, _) = history.go_back().unwrap();
    assert!(history.can_go_forward());

    let history = history.push("/documents".to_string());
    assert!(!history.can_go_forward());
    assert!(history.can_go_back());
}

#[test]
fn multiple_push_and_back() {
    let history = History::new();
    let history = history.push("/a".to_string());
    let history = history.push("/b".to_string());
    let history = history.push("/c".to_string());

    let (history, path) = history.go_back().unwrap();
    assert_eq!(path, "/c");

    let (history, path) = history.go_back().unwrap();
    assert_eq!(path, "/b");

    let (history, path) = history.go_back().unwrap();
    assert_eq!(path, "/a");

    assert!(history.go_back().is_none());
}

#[test]
fn back_and_forward_round_trip() {
    let history = History::new();
    let history = history.push("/a".to_string());
    let history = history.push("/b".to_string());

    let (history, path_b) = history.go_back().unwrap();
    assert_eq!(path_b, "/b");

    let (history, path_a) = history.go_back().unwrap();
    assert_eq!(path_a, "/a");

    let (history, fwd_a) = history.go_forward().unwrap();
    assert_eq!(fwd_a, "/a");

    let (history, fwd_b) = history.go_forward().unwrap();
    assert_eq!(fwd_b, "/b");

    assert!(!history.can_go_forward());
}

#[test]
fn default_is_same_as_new() {
    let h1 = History::new();
    let h2 = History::default();

    assert!(!h1.can_go_back());
    assert!(!h1.can_go_forward());
    assert!(!h2.can_go_back());
    assert!(!h2.can_go_forward());
}

#[test]
fn clone_produces_independent_copy() {
    let history = History::new();
    let history = history.push("/home".to_string());

    let cloned = history.clone();
    assert!(cloned.can_go_back());

    let (cloned_back, _) = cloned.go_back().unwrap();
    assert!(!cloned_back.can_go_back());
    assert!(history.can_go_back());
}

#[test]
fn duplicate_keeps_both_stacks() {
    let history = History::new().push("/a".to_string()).push("/b".to_string());
    let (history, _) = history.go_back().unwrap();
    let copy = history.duplicate();
    assert!(copy.can_go_back());
    assert!(copy.can_go_forward());
    let (_, fwd) = copy.go_forward().unwrap();
    assert_eq!(fwd, "/b");
}

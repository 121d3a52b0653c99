use trefm::action::{Action, ActionCategory, ActionRegistry};

#[test]
fn registry_contains_all_actions() {
    let registry = ActionRegistry::new();
    let all = registry.all();
    assert!(all.len() >= 43);
}

#[test]
fn find_by_id_returns_correct_action() {
    let registry = ActionRegistry::new();
    assert_eq!(registry.find_by_id("cursor_up"), Some(Action::CursorUp));
    assert_eq!(registry.find_by_id("quit"), Some(Action::Quit));
    assert_eq!(
        registry.find_by_id("command_palette"),
        Some(Action::CommandPalette)
    );
}

#[test]
fn find_by_id_unknown_returns_none() {
    let registry = ActionRegistry::new();
    assert_eq!(registry.find_by_id("nonexistent"), None);
}

#[test]
fn fuzzy_search_empty_query_returns_all() {
    let registry = ActionRegistry::new();
    let results = registry.fuzzy_search("");
    assert_eq!(results.len(), registry.all().len());
}

#[test]
fn fuzzy_search_finds_matching_actions() {
    let registry = ActionRegistry::new();
    let results = registry.fuzzy_search("quit");
    assert!(!results.is_empty());
    assert_eq!(results[0].action, Action::Quit);
}

#[test]
fn fuzzy_search_partial_match() {
    let registry = ActionRegistry::new();
    let results = registry.fuzzy_search("book");
    assert!(results.len() >= 2);
    let actions: Vec<Action> = results.iter().map(|d| d.action).collect();
    assert!(actions.contains(&Action::BookmarkAdd));
    assert!(actions.contains(&Action::BookmarkGo));
}

#[test]
fn fuzzy_search_no_match() {
    let registry = ActionRegistry::new();
    let results = registry.fuzzy_search("xyzxyzxyz");
    assert!(results.is_empty());
}

#[test]
fn descriptor_for_returns_metadata() {
    let registry = ActionRegistry::new();
    let desc = registry.descriptor_for(Action::Help).unwrap();
    assert_eq!(desc.id, "help");
    assert_eq!(desc.name, "Help");
    assert_eq!(desc.category, ActionCategory::System);
}

#[test]
fn action_category_labels() {
    assert_eq!(ActionCategory::Navigation.label(), "Navigation");
    assert_eq!(ActionCategory::FileOps.label(), "File");
    assert_eq!(ActionCategory::System.label(), "System");
}

#[test]
fn action_copy_and_eq() {
    let a = Action::CursorUp;
    let b = a;
    assert_eq!(a, b);
}

#[test]
fn action_debug_format() {
    let a = Action::CommandPalette;
    let debug = format!("{a:?}");
    assert!(debug.contains("CommandPalette"));
}

#[test]
fn find_remote_actions_by_id() {
    let registry = ActionRegistry::new();
    assert_eq!(
        registry.find_by_id("remote_connect"),
        Some(Action::RemoteConnect)
    );
    assert_eq!(
        registry.find_by_id("remote_disconnect"),
        Some(Action::RemoteDisconnect)
    );
}

#[test]
fn fuzzy_search_remote() {
    let registry = ActionRegistry::new();
    let results = registry.fuzzy_search("remote");
    assert!(results.len() >= 2);
    let actions: Vec<Action> = results.iter().map(|d| d.action).collect();
    assert!(actions.contains(&Action::RemoteConnect));
    assert!(actions.contains(&Action::RemoteDisconnect));
}

#[test]
fn remote_category_label() {
    assert_eq!(ActionCategory::Remote.label(), "Remote");
}

#[test]
fn descriptor_for_every_action_of_the_table() {
    let registry = ActionRegistry::new();
    for d in registry.all() {
        let found = registry.descriptor_for(d.action).unwrap();
        assert_eq!(found.id, d.id);
        assert_eq!(registry.find_by_id(d.id), Some(d.action));
    }
}

#[test]
fn fuzzy_search_ranks_exact_name_first() {
    let registry = ActionRegistry::new();
    let results = registry.fuzzy_search("help");
    assert_eq!(results[0].action, Action::Help);
}

#[test]
fn every_action_round_trips_through_its_id() {
    let registry = ActionRegistry::new();
    assert_eq!(registry.all().len(), 46);
    for (i, d) in registry.all().iter().enumerate() {
        let found = registry.descriptor_for(d.action).unwrap();
        assert_eq!(found.action, d.action);
        assert_eq!(registry.find_by_id(found.id), Some(d.action));
        for other in &registry.all()[..i] {
            assert_ne!(other.id, d.id);
            assert_ne!(other.action, d.action);
        }
    }
}

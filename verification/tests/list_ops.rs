use javelin::list::FileList;

#[test]
fn add_ignores_duplicates_and_selects_first() {
    let mut l = FileList::new();
    assert!(l.add_current("/a".to_string()));
    assert!(l.add_current("/b".to_string()));
    assert!(!l.add_current("/a".to_string()));
    assert_eq!(l.len(), 2);
    assert_eq!(l.resolve_entry(0).unwrap().as_str(), "/a");
    assert_eq!(l.resolve_entry(1).unwrap().as_str(), "/b");
    assert_eq!(l.selected(), Some(0));
}

#[test]
fn add_twice_same_as_once() {
    let mut once = FileList::new();
    once.add_current("/x".to_string());
    once.add_current("/p".to_string());

    let mut twice = FileList::new();
    twice.add_current("/x".to_string());
    twice.add_current("/p".to_string());
    twice.add_current("/p".to_string());

    assert_eq!(once.len(), twice.len());
    assert_eq!(once.selected(), twice.selected());
    for i in 0..once.len() {
        assert_eq!(once.resolve_entry(i).unwrap(), twice.resolve_entry(i).unwrap());
    }
}

#[test]
fn distinct_count_over_many_adds() {
    let mut l = FileList::new();
    for p in ["/a", "/b", "/a", "/c", "/b", "/a"] {
        l.add_current(p.to_string());
    }
    assert_eq!(l.len(), 3);
}

#[test]
fn move_up_at_top_is_noop() {
    let mut l = FileList::new();
    l.add_current("/a".to_string());
    l.add_current("/b".to_string());
    assert_eq!(l.selected(), Some(0));
    assert!(!l.move_up());
    assert_eq!(l.selected(), Some(0));
    assert_eq!(l.resolve_entry(0).unwrap().as_str(), "/a");
    assert_eq!(l.resolve_entry(1).unwrap().as_str(), "/b");
}

#[test]
fn move_down_at_bottom_is_noop() {
    let mut l = FileList::new();
    l.add_current("/a".to_string());
    l.add_current("/b".to_string());
    l.select_index(1);
    assert!(!l.move_down());
    assert_eq!(l.selected(), Some(1));
    assert_eq!(l.resolve_entry(0).unwrap().as_str(), "/a");
    assert_eq!(l.resolve_entry(1).unwrap().as_str(), "/b");
}

#[test]
fn move_up_twice_from_last() {
    let mut l = FileList::new();
    l.add_current("/a".to_string());
    l.add_current("/b".to_string());
    l.add_current("/c".to_string());
    l.select_index(2);
    assert!(l.move_up());
    assert!(l.move_up());
    assert_eq!(l.resolve_entry(0).unwrap().as_str(), "/c");
    assert_eq!(l.resolve_entry(1).unwrap().as_str(), "/a");
    assert_eq!(l.resolve_entry(2).unwrap().as_str(), "/b");
    assert_eq!(l.selected(), Some(0));
}

#[test]
fn delete_only_entry_empties_list() {
    let mut l = FileList::new();
    l.add_current("/solo".to_string());
    assert!(l.delete_selected());
    assert_eq!(l.len(), 0);
    assert_eq!(l.selected(), None);
}

#[test]
fn delete_middle_keeps_cursor_slot() {
    let mut l = FileList::new();
    l.add_current("/a".to_string());
    l.add_current("/b".to_string());
    l.add_current("/c".to_string());
    l.select_index(1);
    assert!(l.delete_selected());
    assert_eq!(l.len(), 2);
    assert_eq!(l.selected(), Some(1));
    assert_eq!(l.resolve_entry(1).unwrap().as_str(), "/c");
}

#[test]
fn delete_last_entry_clamps_cursor() {
    let mut l = FileList::new();
    l.add_current("/a".to_string());
    l.add_current("/b".to_string());
    l.add_current("/c".to_string());
    l.select_index(2);
    assert!(l.delete_selected());
    assert_eq!(l.len(), 2);
    assert_eq!(l.selected(), Some(1));
}

#[test]
fn delete_with_no_selection_is_noop() {
    let mut l = FileList::new();
    assert!(!l.delete_selected());
    assert_eq!(l.len(), 0);
    assert_eq!(l.selected(), None);
}

#[test]
fn select_next_wraps_and_cycles() {
    let mut l = FileList::new();
    l.add_current("/a".to_string());
    l.add_current("/b".to_string());
    l.add_current("/c".to_string());
    l.select_index(1);
    l.select_next();
    assert_eq!(l.selected(), Some(2));
    l.select_next();
    assert_eq!(l.selected(), Some(0));
    l.select_next();
    assert_eq!(l.selected(), Some(1));
}

#[test]
fn select_previous_wraps() {
    let mut l = FileList::new();
    l.add_current("/a".to_string());
    l.add_current("/b".to_string());
    assert_eq!(l.selected(), Some(0));
    l.select_previous();
    assert_eq!(l.selected(), Some(1));
    l.select_previous();
    assert_eq!(l.selected(), Some(0));
}

#[test]
fn select_on_empty_list_is_noop() {
    let mut l = FileList::new();
    l.select_next();
    assert_eq!(l.selected(), None);
    l.select_previous();
    assert_eq!(l.selected(), None);
}

#[test]
fn resolve_entry_out_of_range() {
    let mut l = FileList::new();
    l.add_current("/a".to_string());
    assert!(l.resolve_entry(1).is_none());
    assert_eq!(l.resolve_entry(0).unwrap().as_str(), "/a");
}

#[test]
fn contains_path_sees_only_present_entries() {
    let mut l = FileList::new();
    l.add_current("/a".to_string());
    assert!(l.contains_path(&"/a".to_string()));
    assert!(!l.contains_path(&"/b".to_string()));
}

#[test]
fn add_hint_three_cases() {
    let mut l = FileList::new();
    l.add_current("/home/u/f.rs".to_string());
    assert_eq!(l.add_hint(None, "f.rs"), "No ZED_FILE environment variable set");
    assert_eq!(
        l.add_hint(Some(&"/home/u/f.rs".to_string()), "f.rs"),
        "Current file: f.rs (already in list)"
    );
    assert_eq!(l.add_hint(Some(&"/home/u/g.rs".to_string()), "g.rs"), "Press 'a' to add: g.rs");
}

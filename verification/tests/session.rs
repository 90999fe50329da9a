use javelin::app::{App, Command, KeyCode, KeyPress, command_of};
use javelin::key::project_key;
use javelin::store::new_store;

#[test]
fn dispatch_table_quit_keys() {
    assert_eq!(
        command_of(KeyPress { code: KeyCode::Esc, shift: false, ctrl: false }),
        Command::Quit
    );
    assert_eq!(
        command_of(KeyPress { code: KeyCode::Char('q'), shift: false, ctrl: false }),
        Command::Quit
    );
    assert_eq!(
        command_of(KeyPress { code: KeyCode::Char('c'), shift: false, ctrl: true }),
        Command::Quit
    );
    assert_eq!(
        command_of(KeyPress { code: KeyCode::Char('C'), shift: false, ctrl: true }),
        Command::Quit
    );
    assert_eq!(
        command_of(KeyPress { code: KeyCode::Char('c'), shift: false, ctrl: false }),
        Command::Idle
    );
}

#[test]
fn dispatch_table_list_keys() {
    assert_eq!(
        command_of(KeyPress { code: KeyCode::Char('j'), shift: false, ctrl: false }),
        Command::Next
    );
    assert_eq!(
        command_of(KeyPress { code: KeyCode::Char('k'), shift: false, ctrl: false }),
        Command::Previous
    );
    assert_eq!(
        command_of(KeyPress { code: KeyCode::Char('a'), shift: false, ctrl: false }),
        Command::AddCurrent
    );
    assert_eq!(
        command_of(KeyPress { code: KeyCode::Char('d'), shift: false, ctrl: false }),
        Command::DeleteSelected
    );
    assert_eq!(
        command_of(KeyPress { code: KeyCode::Char('J'), shift: true, ctrl: false }),
        Command::MoveDown
    );
    assert_eq!(
        command_of(KeyPress { code: KeyCode::Char('K'), shift: true, ctrl: false }),
        Command::MoveUp
    );
    assert_eq!(
        command_of(KeyPress { code: KeyCode::Char('J'), shift: false, ctrl: false }),
        Command::Idle
    );
    assert_eq!(
        command_of(KeyPress { code: KeyCode::Enter, shift: false, ctrl: false }),
        Command::OpenSelected
    );
}

#[test]
fn dispatch_table_digits() {
    assert_eq!(
        command_of(KeyPress { code: KeyCode::Char('1'), shift: false, ctrl: false }),
        Command::OpenIndex(0)
    );
    assert_eq!(
        command_of(KeyPress { code: KeyCode::Char('9'), shift: false, ctrl: false }),
        Command::OpenIndex(8)
    );
    assert_eq!(
        command_of(KeyPress { code: KeyCode::Char('0'), shift: false, ctrl: false }),
        Command::Idle
    );
    assert_eq!(
        command_of(KeyPress { code: KeyCode::Char('x'), shift: false, ctrl: false }),
        Command::Idle
    );
    assert_eq!(
        command_of(KeyPress { code: KeyCode::Other, shift: false, ctrl: false }),
        Command::Idle
    );
}

#[test]
fn session_reorder_with_shifted_k() {
    let db = new_store("/tmp/javelin_test_session_reorder.db");
    let mut app = App::new(db, project_key("/proj/session"));
    app.start();
    for p in ["/a", "/b", "/c"] {
        app.add_current_file(Some(p.to_string())).unwrap();
    }
    let j = KeyPress { code: KeyCode::Char('j'), shift: false, ctrl: false };
    app.on_key_event(j, None).unwrap();
    app.on_key_event(j, None).unwrap();
    assert_eq!(app.list.selected(), Some(2));

    let shifted_k = KeyPress { code: KeyCode::Char('K'), shift: true, ctrl: false };
    app.on_key_event(shifted_k, None).unwrap();
    app.on_key_event(shifted_k, None).unwrap();

    assert_eq!(app.list.resolve_entry(0).unwrap().as_str(), "/c");
    assert_eq!(app.list.resolve_entry(1).unwrap().as_str(), "/a");
    assert_eq!(app.list.resolve_entry(2).unwrap().as_str(), "/b");
    assert_eq!(app.list.selected(), Some(0));
    assert!(app.running);
}

#[test]
fn session_enter_launches_selected_and_quits() {
    let db = new_store("/tmp/javelin_test_session_enter.db");
    let mut app = App::new(db, project_key("/proj/enter"));
    app.start();
    app.add_current_file(Some("/first".to_string())).unwrap();
    app.add_current_file(Some("/second".to_string())).unwrap();

    let enter = KeyPress { code: KeyCode::Enter, shift: false, ctrl: false };
    let launched = app.on_key_event(enter, None).unwrap();
    assert_eq!(launched.unwrap().as_str(), "/first");
    assert!(!app.running);
}

#[test]
fn session_digit_in_range_launches() {
    let db = new_store("/tmp/javelin_test_session_digit.db");
    let mut app = App::new(db, project_key("/proj/digit"));
    app.start();
    app.add_current_file(Some("/first".to_string())).unwrap();
    app.add_current_file(Some("/second".to_string())).unwrap();

    let two = KeyPress { code: KeyCode::Char('2'), shift: false, ctrl: false };
    let launched = app.on_key_event(two, None).unwrap();
    assert_eq!(launched.unwrap().as_str(), "/second");
    assert!(!app.running);
}

#[test]
fn session_digit_out_of_range_is_noop() {
    let db = new_store("/tmp/javelin_test_session_digit_oob.db");
    let mut app = App::new(db, project_key("/proj/digit-oob"));
    app.start();
    app.add_current_file(Some("/only".to_string())).unwrap();

    let nine = KeyPress { code: KeyCode::Char('9'), shift: false, ctrl: false };
    let launched = app.on_key_event(nine, None).unwrap();
    assert!(launched.is_none());
    assert!(app.running);
    assert_eq!(app.list.len(), 1);
}

#[test]
fn session_add_without_signal_is_noop() {
    let db = new_store("/tmp/javelin_test_session_nosignal.db");
    let mut app = App::new(db, project_key("/proj/nosignal"));
    app.start();
    let a = KeyPress { code: KeyCode::Char('a'), shift: false, ctrl: false };
    let launched = app.on_key_event(a, None).unwrap();
    assert!(launched.is_none());
    assert_eq!(app.list.len(), 0);
    assert!(app.running);
}

#[test]
fn session_enter_without_selection_keeps_running() {
    let db = new_store("/tmp/javelin_test_session_empty_enter.db");
    let mut app = App::new(db, project_key("/proj/empty-enter"));
    app.start();
    let enter = KeyPress { code: KeyCode::Enter, shift: false, ctrl: false };
    let launched = app.on_key_event(enter, None).unwrap();
    assert!(launched.is_none());
    assert!(app.running);
}

use item_list::added_event;
use item_list::loaded_event;
use item_list::App;
use item_list::AppMessage;

#[test]
fn new_state_is_empty() {
    let app = App::new();
    assert!(app.items.is_empty());
    assert!(app.new_item_name.is_empty());
}

#[test]
fn loaded_event_replaces_list() {
    let mut app = App::new();
    let names = vec!["one".to_string(), "two".to_string()];
    app.handle_message(loaded_event(names.clone()));
    assert_eq!(app.items, names);
}

#[test]
fn added_name_appears_at_head() {
    let mut app = App::new();
    app.handle_message(loaded_event(vec!["old".to_string()]));
    app.new_item_name = "pear".to_string();
    app.handle_message(AppMessage::ItemAdded("pear".to_string()));
    assert_eq!(app.items, vec!["pear".to_string(), "old".to_string()]);
    assert!(app.new_item_name.is_empty());
}

#[test]
fn empty_submission_requests_nothing() {
    let app = App::new();
    assert!(app.submit().is_none());
    assert!(app.items.is_empty());
}

#[test]
fn nonempty_submission_requests_the_name() {
    let mut app = App::new();
    app.new_item_name = "apple".to_string();
    let requested = app.submit();
    assert_eq!(requested, Some("apple".to_string()));
    assert_eq!(app.new_item_name, "apple".to_string());
}

#[test]
fn sequential_adds_display_in_reverse_order() {
    let mut app = App::new();
    for name in ["a", "b", "c"] {
        app.new_item_name = name.to_string();
        let requested = app.submit().expect("non-empty name must request an insert");
        let msg = added_event(requested, true).expect("a successful insert must yield an event");
        app.handle_message(msg);
        assert!(app.new_item_name.is_empty());
    }
    assert_eq!(
        app.items,
        vec!["c".to_string(), "b".to_string(), "a".to_string()]
    );
}

#[test]
fn double_submission_shows_the_name_twice() {
    let mut app = App::new();
    app.new_item_name = "dup".to_string();
    let first = app.submit().expect("non-empty name must request an insert");
    let second = app.submit().expect("the buffer is cleared only when the event is drained");
    app.handle_message(added_event(first, true).expect("event"));
    app.handle_message(added_event(second, true).expect("event"));
    assert_eq!(app.items, vec!["dup".to_string(), "dup".to_string()]);
}

#[test]
fn failed_insert_yields_no_event_and_no_change() {
    let mut app = App::new();
    app.new_item_name = "lost".to_string();
    let requested = app.submit().expect("non-empty name must request an insert");
    let outcome = added_event(requested, false);
    assert!(outcome.is_none());
    assert!(app.items.is_empty());
    assert_eq!(app.new_item_name, "lost".to_string());
}

#[test]
fn loaded_event_carries_the_names() {
    let msg = loaded_event(vec!["x".to_string()]);
    match msg {
        AppMessage::ApplicationLoad(ns) => assert_eq!(ns, vec!["x".to_string()]),
        AppMessage::ItemAdded(_) => panic!("a load must yield an ApplicationLoad message"),
    }
}

#[test]
fn added_event_carries_the_name() {
    let msg = added_event("kept".to_string(), true).expect("event");
    match msg {
        AppMessage::ItemAdded(n) => assert_eq!(n, "kept".to_string()),
        AppMessage::ApplicationLoad(_) => panic!("an insert must yield an ItemAdded message"),
    }
}

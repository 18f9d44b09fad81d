use caesar_commander::model::{
    clone_items, clone_strings, Item, ItemType, NavigatedEvent, Params, Timestamp,
};

fn text(s: &str) -> Option<String> {
    Some(s.to_string())
}

#[test]
fn both_panes_default_to_home() {
    let params = Params::new(None, None, "/home/me".to_string());
    assert_eq!(params.left_path, "/home/me");
    assert_eq!(params.right_path, "/home/me");
}

#[test]
fn right_pane_defaults_to_the_left_one() {
    let params = Params::new(text("/tmp/L"), None, "/home/me".to_string());
    assert_eq!(params.left_path, "/tmp/L");
    assert_eq!(params.right_path, "/tmp/L");
}

#[test]
fn right_pane_alone_leaves_the_left_at_home() {
    let params = Params::new(None, text("/tmp/R"), "/home/me".to_string());
    assert_eq!(params.left_path, "/home/me");
    assert_eq!(params.right_path, "/tmp/R");
}

#[test]
fn both_panes_given() {
    let params = Params::new(text("/tmp/L"), text("/tmp/R"), "/home/me".to_string());
    assert_eq!(
        params,
        Params { left_path: "/tmp/L".to_string(), right_path: "/tmp/R".to_string() }
    );
}

#[test]
fn clones_are_equal() {
    let item = Item {
        name: "a.txt".to_string(),
        path: "/tmp/L/a.txt".to_string(),
        item_type: ItemType::File,
        size: 5,
        modified: Timestamp { secs: 12, nanos: 34, utc_offset_secs: -7200 },
    };
    assert_eq!(item.clone(), item);
    let items = vec![item.clone(), item];
    assert_eq!(clone_items(&items), items);
    let names = vec!["tmp".to_string(), "L".to_string()];
    assert_eq!(clone_strings(&names), names);
    let event = NavigatedEvent::DirectoryOpened("/tmp/L/sub".to_string());
    assert_eq!(event.clone(), event);
    let moved = NavigatedEvent::SelectionMoved {
        index: 3,
        selection: true,
        additive: false,
        direction: None,
    };
    assert_eq!(moved.clone(), moved);
}

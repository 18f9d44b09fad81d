use caesar_commander::keyboard::{
    handle, handle_arrow_down, handle_arrow_up, handle_backspace, handle_enter, handle_page_down,
    handle_page_up, move_cursor, navigate, page_step, KeyInput,
};
use caesar_commander::model::{Item, ItemType, MoveDirection, NavigatedEvent, Timestamp};
use caesar_commander::view::FilePaneView;
use std::collections::BTreeSet;

fn item(name: &str, item_type: ItemType) -> Item {
    Item {
        name: name.to_string(),
        path: format!("/tmp/L/{name}"),
        item_type,
        size: 1,
        modified: Timestamp { secs: 0, nanos: 0, utc_offset_secs: 0 },
    }
}

fn view(count: usize, cursor: usize) -> FilePaneView {
    FilePaneView {
        items: (0..count).map(|i| item(&format!("f{i}"), ItemType::File)).collect(),
        breadcrumbs: vec!["tmp".to_string(), "L".to_string()],
        cursor_index: cursor,
        selected_indices: BTreeSet::new(),
        focused: true,
    }
}

fn no_keys() -> KeyInput {
    KeyInput {
        backspace: false,
        enter: false,
        arrow_up: false,
        arrow_down: false,
        page_up: false,
        page_down: false,
        arrow_left: false,
        arrow_right: false,
        tab: false,
        f6: false,
        shift: false,
        ctrl: false,
    }
}

fn moved(index: usize, selection: bool, additive: bool, direction: Option<MoveDirection>) -> NavigatedEvent {
    NavigatedEvent::SelectionMoved { index, selection, additive, direction }
}

#[test]
fn page_step_is_at_least_one() {
    assert_eq!(page_step(12), 12);
    assert_eq!(page_step(1), 1);
    assert_eq!(page_step(0), 1);
    assert_eq!(page_step(-3), 1);
}

#[test]
fn backspace_traverses_up() {
    let input = KeyInput { backspace: true, ..no_keys() };
    assert_eq!(handle_backspace(&input), Some(NavigatedEvent::TraversedUp));
    assert_eq!(handle_backspace(&no_keys()), None);
}

#[test]
fn enter_opens_a_directory_and_ignores_a_file() {
    let mut pane = view(2, 1);
    pane.items[1] = item("sub", ItemType::Directory);
    let input = KeyInput { enter: true, ..no_keys() };
    assert_eq!(
        handle_enter(&pane, &input),
        Some(NavigatedEvent::DirectoryOpened("/tmp/L/sub".to_string()))
    );
    pane.cursor_index = 0;
    assert_eq!(handle_enter(&pane, &input), None);
    pane.cursor_index = 2;
    assert_eq!(handle_enter(&pane, &input), None);
    pane.cursor_index = 1;
    assert_eq!(handle_enter(&pane, &no_keys()), None);
}

#[test]
fn arrow_down_moves_one_row_and_stops_at_the_end() {
    let input = KeyInput { arrow_down: true, ..no_keys() };
    assert_eq!(
        handle_arrow_down(&view(3, 0), &input),
        Some(moved(1, false, false, Some(MoveDirection::Down)))
    );
    assert_eq!(
        handle_arrow_down(&view(3, 2), &input),
        Some(moved(2, false, false, Some(MoveDirection::Down)))
    );
    assert_eq!(handle_arrow_down(&view(0, 0), &input), None);
    assert_eq!(handle_arrow_down(&view(3, 0), &no_keys()), None);
}

#[test]
fn arrow_up_moves_one_row_and_stops_at_the_start() {
    let input = KeyInput { arrow_up: true, ..no_keys() };
    assert_eq!(
        handle_arrow_up(&view(3, 2), &input),
        Some(moved(1, false, false, Some(MoveDirection::Up)))
    );
    assert_eq!(
        handle_arrow_up(&view(3, 0), &input),
        Some(moved(0, false, false, Some(MoveDirection::Up)))
    );
    assert_eq!(handle_arrow_up(&view(0, 0), &input), None);
}

#[test]
fn shift_extends_and_ctrl_adds() {
    let input = KeyInput { arrow_down: true, shift: true, ..no_keys() };
    assert_eq!(
        handle_arrow_down(&view(5, 1), &input),
        Some(moved(2, true, false, Some(MoveDirection::Down)))
    );
    let input = KeyInput { arrow_up: true, shift: true, ctrl: true, ..no_keys() };
    assert_eq!(
        handle_arrow_up(&view(5, 1), &input),
        Some(moved(0, true, true, Some(MoveDirection::Up)))
    );
}

#[test]
fn page_down_wraps_around() {
    let input = KeyInput { page_down: true, ..no_keys() };
    assert_eq!(handle_page_down(&view(3, 0), &input, 5), Some(moved(2, false, false, None)));
    assert_eq!(handle_page_down(&view(10, 8), &input, 4), Some(moved(2, false, false, None)));
    assert_eq!(handle_page_down(&view(10, 3), &input, 0), Some(moved(4, false, false, None)));
    assert_eq!(handle_page_down(&view(0, 0), &input, 5), None);
}

#[test]
fn page_up_wraps_around() {
    let input = KeyInput { page_up: true, ..no_keys() };
    assert_eq!(handle_page_up(&view(3, 0), &input, 5), Some(moved(1, false, false, None)));
    assert_eq!(handle_page_up(&view(10, 8), &input, 4), Some(moved(4, false, false, None)));
    assert_eq!(handle_page_up(&view(10, 0), &input, 1), Some(moved(9, false, false, None)));
    assert_eq!(handle_page_up(&view(0, 0), &input, 5), None);
}

#[test]
fn page_moves_ignore_the_modifiers() {
    let input = KeyInput { page_down: true, shift: true, ctrl: true, ..no_keys() };
    assert_eq!(handle_page_down(&view(7, 1), &input, 3), Some(moved(4, false, false, None)));
}

#[test]
fn move_cursor_clamps_any_delta() {
    let pane = view(5, 2);
    assert_eq!(
        move_cursor(&pane, 10, MoveDirection::Down, false, false),
        Some(moved(4, false, false, Some(MoveDirection::Down)))
    );
    assert_eq!(
        move_cursor(&pane, -10, MoveDirection::Up, false, false),
        Some(moved(0, false, false, Some(MoveDirection::Up)))
    );
    assert_eq!(
        move_cursor(&pane, isize::MIN, MoveDirection::Up, false, false),
        Some(moved(0, false, false, Some(MoveDirection::Up)))
    );
    assert_eq!(
        move_cursor(&pane, isize::MAX, MoveDirection::Down, false, false),
        Some(moved(4, false, false, Some(MoveDirection::Down)))
    );
    assert_eq!(
        move_cursor(&view(5, 9), -1, MoveDirection::Up, false, false),
        Some(moved(4, false, false, Some(MoveDirection::Up)))
    );
}

#[test]
fn navigate_wraps_any_amount() {
    assert_eq!(navigate(&view(3, 0), 5), Some(moved(2, false, false, None)));
    assert_eq!(navigate(&view(3, 0), -5), Some(moved(1, false, false, None)));
    assert_eq!(navigate(&view(3, 1), -1), Some(moved(0, false, false, None)));
    assert_eq!(navigate(&view(3, 0), -3), Some(moved(0, false, false, None)));
    assert_eq!(navigate(&view(7, 6), isize::MAX), Some(moved(
        ((6i128 + isize::MAX as i128).rem_euclid(7)) as usize,
        false,
        false,
        None
    )));
    assert_eq!(navigate(&view(7, 6), isize::MIN), Some(moved(
        ((6i128 + isize::MIN as i128).rem_euclid(7)) as usize,
        false,
        false,
        None
    )));
    assert_eq!(navigate(&view(0, 0), 1), None);
}

#[test]
fn keys_are_decoded_in_a_fixed_order() {
    let mut pane = view(4, 1);
    pane.items[1] = item("sub", ItemType::Directory);
    let input = KeyInput {
        backspace: true,
        enter: true,
        arrow_up: true,
        arrow_down: true,
        page_up: true,
        page_down: true,
        ..no_keys()
    };
    assert_eq!(
        handle(&pane, &input, 2),
        vec![
            NavigatedEvent::TraversedUp,
            NavigatedEvent::DirectoryOpened("/tmp/L/sub".to_string()),
            moved(0, false, false, Some(MoveDirection::Up)),
            moved(2, false, false, Some(MoveDirection::Down)),
            moved(3, false, false, None),
            moved(3, false, false, None),
        ]
    );
}

#[test]
fn pane_without_focus_receives_nothing() {
    let mut pane = view(4, 1);
    pane.focused = false;
    let input = KeyInput { backspace: true, arrow_down: true, ..no_keys() };
    assert_eq!(handle(&pane, &input, 2), vec![]);
}

#[test]
fn focus_keys_mean_nothing_to_a_pane() {
    let input = KeyInput { arrow_left: true, arrow_right: true, tab: true, f6: true, ..no_keys() };
    assert_eq!(handle(&view(4, 1), &input, 2), vec![]);
}

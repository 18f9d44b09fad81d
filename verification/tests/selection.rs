use caesar_commander::model::MoveDirection;
use caesar_commander::selection::{same_direction, SelectionEvent, SelectionModel};
use std::collections::BTreeSet;

fn set(indices: &[usize]) -> BTreeSet<usize> {
    indices.iter().copied().collect()
}

fn additive(index: usize, direction: MoveDirection) -> SelectionEvent {
    SelectionEvent::Move { index, extend: true, additive: true, direction: Some(direction) }
}

fn extend(index: usize, direction: MoveDirection) -> SelectionEvent {
    SelectionEvent::Move { index, extend: true, additive: false, direction: Some(direction) }
}

fn is_valid(model: &SelectionModel, len: usize) -> bool {
    model.cursor_index() < len
        && model.selection_anchor().map_or(true, |a| a < len)
        && model.get_selected_indices().iter().all(|i| *i < len)
}

#[test]
fn new_model_is_empty() {
    let model = SelectionModel::new();
    assert_eq!(model.cursor_index(), 0);
    assert_eq!(model.selection_anchor(), None);
    assert_eq!(model.last_direction(), None);
    assert!(model.get_selected_indices().is_empty());
    assert_eq!(model.max_selected(), None);
}

#[test]
fn fresh_model_selects_the_first_item() {
    let model = SelectionModel::fresh(3);
    assert_eq!(model.cursor_index(), 0);
    assert_eq!(model.selection_anchor(), Some(0));
    assert_eq!(model.get_selected_indices(), &set(&[0]));
    let empty = SelectionModel::fresh(0);
    assert_eq!(empty, SelectionModel::new());
}

#[test]
fn select_single_resets_everything_to_the_index() {
    let mut model = SelectionModel::new();
    model.apply(extend(7, MoveDirection::Down), 10);
    model.apply(SelectionEvent::SelectSingle { index: 3 }, 10);
    assert_eq!(model.get_selected_indices(), &set(&[3]));
    assert_eq!(model.cursor_index(), 3);
    assert_eq!(model.selection_anchor(), Some(3));
    assert_eq!(model.last_direction(), None);
}

#[test]
fn select_single_equals_a_plain_move() {
    let mut a = SelectionModel::fresh(10);
    let mut b = SelectionModel::fresh(10);
    a.apply(additive(4, MoveDirection::Down), 10);
    b.apply(additive(4, MoveDirection::Down), 10);
    a.apply(SelectionEvent::SelectSingle { index: 8 }, 10);
    b.apply(
        SelectionEvent::Move { index: 8, extend: false, additive: false, direction: None },
        10,
    );
    assert_eq!(a, b);
}

#[test]
fn plain_move_selects_its_target_and_records_the_direction() {
    let mut model = SelectionModel::fresh(10);
    model.apply(
        SelectionEvent::Move {
            index: 4,
            extend: false,
            additive: false,
            direction: Some(MoveDirection::Down),
        },
        10,
    );
    assert_eq!(model.get_selected_indices(), &set(&[4]));
    assert_eq!(model.cursor_index(), 4);
    assert_eq!(model.selection_anchor(), Some(4));
    assert_eq!(model.last_direction(), Some(MoveDirection::Down));
}

#[test]
fn range_goes_from_smaller_to_larger_either_way() {
    let mut down = SelectionModel::new();
    down.apply(SelectionEvent::SelectSingle { index: 2 }, 10);
    down.apply(extend(6, MoveDirection::Down), 10);
    assert_eq!(down.get_selected_indices(), &set(&[2, 3, 4, 5, 6]));
    assert_eq!(down.cursor_index(), 6);
    assert_eq!(down.selection_anchor(), Some(2));

    let mut up = SelectionModel::new();
    up.apply(SelectionEvent::SelectSingle { index: 6 }, 10);
    up.apply(extend(2, MoveDirection::Up), 10);
    assert_eq!(up.get_selected_indices(), &set(&[2, 3, 4, 5, 6]));
    assert_eq!(up.cursor_index(), 2);
    assert_eq!(up.selection_anchor(), Some(6));
}

#[test]
fn range_replaces_what_was_selected() {
    let mut model = SelectionModel::new();
    model.apply(SelectionEvent::SelectSingle { index: 5 }, 10);
    model.apply(extend(8, MoveDirection::Down), 10);
    model.apply(extend(4, MoveDirection::Up), 10);
    assert_eq!(model.get_selected_indices(), &set(&[4, 5]));
    assert_eq!(model.selection_anchor(), Some(5));
}

#[test]
fn range_without_anchor_starts_at_the_cursor() {
    let mut model = SelectionModel::new();
    model.apply(extend(2, MoveDirection::Down), 5);
    assert_eq!(model.get_selected_indices(), &set(&[0, 1, 2]));
    assert_eq!(model.selection_anchor(), Some(0));
}

#[test]
fn additive_reversal_starts_a_new_block_at_the_cursor() {
    let mut model = SelectionModel::new();
    model.apply(SelectionEvent::SelectSingle { index: 5 }, 10);
    model.apply(additive(6, MoveDirection::Down), 10);
    assert_eq!(model.get_selected_indices(), &set(&[5, 6]));
    assert_eq!(model.selection_anchor(), Some(5));
    model.apply(additive(4, MoveDirection::Up), 10);
    assert!(model.get_selected_indices().contains(&4));
    assert!(model.get_selected_indices().contains(&5));
    assert_eq!(model.get_selected_indices(), &set(&[4, 5, 6]));
    assert_eq!(model.selection_anchor(), Some(6));
    assert_eq!(model.cursor_index(), 4);
    assert_eq!(model.last_direction(), Some(MoveDirection::Up));
}

#[test]
fn additive_moves_in_one_direction_keep_the_anchor() {
    let mut model = SelectionModel::new();
    model.apply(SelectionEvent::SelectSingle { index: 2 }, 6);
    model.apply(additive(3, MoveDirection::Down), 6);
    model.apply(additive(4, MoveDirection::Down), 6);
    assert_eq!(model.get_selected_indices(), &set(&[2, 3, 4]));
    assert_eq!(model.selection_anchor(), Some(2));
    assert_eq!(model.cursor_index(), 4);
}

#[test]
fn additive_moves_down_then_up_over_six_items() {
    let mut model = SelectionModel::new();
    model.apply(SelectionEvent::SelectSingle { index: 2 }, 6);
    model.apply(additive(3, MoveDirection::Down), 6);
    model.apply(additive(4, MoveDirection::Down), 6);
    model.apply(additive(3, MoveDirection::Up), 6);
    model.apply(additive(2, MoveDirection::Up), 6);
    model.apply(additive(1, MoveDirection::Up), 6);
    model.apply(additive(0, MoveDirection::Up), 6);
    assert_eq!(model.get_selected_indices(), &set(&[0, 1, 2, 3, 4]));
    assert_eq!(model.cursor_index(), 0);
    assert_eq!(model.selection_anchor(), Some(4));
}

#[test]
fn additive_range_keeps_distant_blocks() {
    let mut model = SelectionModel::new();
    model.apply(SelectionEvent::SelectSingle { index: 1 }, 10);
    model.add_range_to_selection(7, 8);
    assert_eq!(model.get_selected_indices(), &set(&[1, 7, 8]));
    assert_eq!(model.cursor_index(), 8);
    assert_eq!(model.selection_anchor(), Some(7));
}

#[test]
fn reset_clears_the_selection() {
    let mut model = SelectionModel::new();
    model.apply(SelectionEvent::SelectSingle { index: 5 }, 10);
    model.apply(additive(7, MoveDirection::Down), 10);
    model.apply(SelectionEvent::Reset, 10);
    assert!(model.get_selected_indices().is_empty());
    assert_eq!(model.cursor_index(), 0);
    assert_eq!(model.selection_anchor(), Some(0));
    assert_eq!(model.last_direction(), None);
}

#[test]
fn reset_of_an_empty_list_leaves_no_anchor() {
    let mut model = SelectionModel::new();
    model.apply(SelectionEvent::Reset, 0);
    assert_eq!(model, SelectionModel::new());
}

#[test]
fn events_in_range_keep_the_model_valid() {
    let len = 7;
    let events = [
        SelectionEvent::SelectSingle { index: 6 },
        extend(0, MoveDirection::Up),
        additive(3, MoveDirection::Down),
        SelectionEvent::Reset,
        additive(6, MoveDirection::Down),
        additive(1, MoveDirection::Up),
        SelectionEvent::Move { index: 5, extend: false, additive: false, direction: None },
        extend(2, MoveDirection::Up),
    ];
    let mut model = SelectionModel::fresh(len);
    assert!(is_valid(&model, len));
    for event in events {
        model.apply(event, len);
        assert!(is_valid(&model, len));
    }
}

#[test]
fn an_index_beyond_the_list_is_taken_as_it_is() {
    let mut model = SelectionModel::fresh(3);
    model.apply(SelectionEvent::SelectSingle { index: 3 }, 3);
    assert_eq!(model.cursor_index(), 3);
    assert!(!is_valid(&model, 3));
}

#[test]
fn move_cursor_to_first_leaves_the_selection() {
    let mut model = SelectionModel::new();
    model.apply(SelectionEvent::SelectSingle { index: 4 }, 10);
    model.move_cursor_to_first(10);
    assert_eq!(model.cursor_index(), 0);
    assert_eq!(model.selection_anchor(), Some(0));
    assert_eq!(model.get_selected_indices(), &set(&[4]));
    model.apply(SelectionEvent::SelectSingle { index: 4 }, 10);
    model.move_cursor_to_first(0);
    assert_eq!(model.cursor_index(), 4);
}

#[test]
fn anchor_moves_to_the_cursor_only_on_another_direction() {
    let mut model = SelectionModel::new();
    model.select_range(2, 5);
    model.reset_anchor_if_diff_dir(Some(MoveDirection::Up), Some(MoveDirection::Up));
    assert_eq!(model.selection_anchor(), Some(2));
    model.reset_anchor_if_diff_dir(Some(MoveDirection::Up), Some(MoveDirection::Down));
    assert_eq!(model.selection_anchor(), Some(5));
    model.select_range(2, 5);
    model.reset_anchor_if_diff_dir(Some(MoveDirection::Up), None);
    assert_eq!(model.selection_anchor(), Some(5));
}

#[test]
fn largest_selected_index() {
    let mut model = SelectionModel::new();
    model.select_range(3, 1);
    assert_eq!(model.max_selected(), Some(3));
    model.add_range_to_selection(9, 9);
    assert_eq!(model.max_selected(), Some(9));
    assert!(model.is_selected(2));
    assert!(!model.is_selected(4));
}

#[test]
fn handle_selection_moved_is_the_move_event() {
    let mut a = SelectionModel::fresh(10);
    let mut b = SelectionModel::fresh(10);
    a.handle_selection_moved(3, true, false, Some(MoveDirection::Down));
    b.apply(extend(3, MoveDirection::Down), 10);
    assert_eq!(a, b);
    assert_eq!(a.get_selected_indices(), &set(&[0, 1, 2, 3]));
}

#[test]
fn directions_compare() {
    assert!(same_direction(None, None));
    assert!(same_direction(Some(MoveDirection::Up), Some(MoveDirection::Up)));
    assert!(!same_direction(Some(MoveDirection::Up), Some(MoveDirection::Down)));
    assert!(!same_direction(None, Some(MoveDirection::Down)));
}

#[test]
fn clone_keeps_the_state() {
    let mut model = SelectionModel::new();
    model.select_range(1, 3);
    assert_eq!(model.clone(), model);
}

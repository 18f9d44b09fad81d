use caesar_commander::focus_state::FocusState;

#[test]
fn focus_toggles_between_panes() {
    let mut focus = FocusState::LeftPane;
    assert!(focus.is_left());
    assert!(!focus.is_right());
    focus.next();
    assert!(focus.is_right());
    focus.next();
    assert_eq!(focus, FocusState::LeftPane);
}

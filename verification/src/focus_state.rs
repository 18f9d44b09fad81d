//! Which of the two panes has the keyboard.

use vstd::prelude::*;

verus! {

/// The pane that has focus.
#[derive(Clone, Copy, Debug, PartialEq, Eq, Structural)]
pub enum FocusState {
    LeftPane,
    RightPane,
}

/// The other pane.
pub open spec fn toggled(focus: FocusState) -> FocusState {
    match focus {
        FocusState::LeftPane => FocusState::RightPane,
        FocusState::RightPane => FocusState::LeftPane,
    }
}

impl FocusState {
    /// Whether the left pane has focus.
    pub fn is_left(&self) -> (left: bool)
        ensures
            left == (*self == FocusState::LeftPane),
    {
        match self {
            FocusState::LeftPane => true,
            FocusState::RightPane => false,
        }
    }

    /// Whether the right pane has focus.
    pub fn is_right(&self) -> (right: bool)
        ensures
            right == (*self == FocusState::RightPane),
    {
        match self {
            FocusState::LeftPane => false,
            FocusState::RightPane => true,
        }
    }

    /// Hands focus to the other pane.
    pub fn next(&mut self)
        ensures
            *final(self) == toggled(*old(self)),
    {
        match self {
            FocusState::LeftPane => {
                *self = FocusState::RightPane;
            },
            FocusState::RightPane => {
                *self = FocusState::LeftPane;
            },
        }
    }
}

/// Toggling twice gives focus back, and one pane always has it.
pub proof fn law_toggle_twice(focus: FocusState)
    ensures
        toggled(toggled(focus)) == focus,
        toggled(focus) != focus,
{
}

} // verus!

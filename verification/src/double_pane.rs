//! The two panes together: which one has focus, where key presses go, and
//! how a move from the focused pane into the other one runs.
//!
//! One tick of the caller goes like this: take the events that wait for
//! each pane with `next_navigation_event`, read the directory that each one
//! names and apply it with `handle_navigation_event`; take the requests of
//! the controls with `next_controls_event`, get the files to move from
//! `handle_pane_controls_event`, move them, and end with `finish_move`;
//! then hand the keys of the frame to `handle_keyboard`.

use vstd::prelude::*;
use crate::container::{
    accepted,
    after_event,
    after_move,
    coherent,
    event_in_range,
    event_outcome,
    refreshed,
    requests_of,
    FilePaneContainer,
    MoveRequest,
    PaneState,
};
use crate::event_queue::EventQueue;
use crate::focus_state::{toggled, FocusState};
use crate::keyboard::{decoded, KeyInput};
use crate::model::{texts, FsError, NavigatedEvent, PaneControlsEvent};
use crate::navigator::{listing, DirRead, Navigator};
use crate::view::FilePaneView;
use crate::watcher::WatchSwitch;

verus! {

/// How many requests the channel of the controls holds.
pub const CONTROLS_CAPACITY: usize = 1;

/// The controls below the panes: a channel of requests, fed by F6.
#[derive(Debug, PartialEq, Eq)]
pub struct PaneControls {
    pub receiver: EventQueue<PaneControlsEvent>,
}

/// What the controls' channel holds after the keys in `input`: F6 asks
/// for a move of the selection, if the channel has room for the request.
pub open spec fn controls_after(
    waiting: Seq<PaneControlsEvent>,
    limit: nat,
    input: KeyInput,
) -> Seq<PaneControlsEvent> {
    if input.f6 && waiting.len() < limit {
        waiting.push(PaneControlsEvent::MoveSelected)
    } else {
        waiting
    }
}

impl PaneControls {
    /// Controls with nothing asked for.
    pub fn new() -> (controls: Self)
        ensures
            controls.receiver@ == Seq::<PaneControlsEvent>::empty(),
            controls.receiver.limit() == CONTROLS_CAPACITY,
            controls.receiver.bounded(),
    {
        PaneControls { receiver: EventQueue::new(CONTROLS_CAPACITY) }
    }

    /// Takes the keys of one frame: F6 asks for a move of the selection.
    pub fn handle_keyboard(&mut self, input: &KeyInput)
        ensures
            final(self).receiver@ == controls_after(
                old(self).receiver@,
                old(self).receiver.limit(),
                *input,
            ),
            final(self).receiver.limit() == old(self).receiver.limit(),
            old(self).receiver.bounded() ==> final(self).receiver.bounded(),
    {
        if input.f6 {
            let _ = self.receiver.try_send(PaneControlsEvent::MoveSelected);
        }
    }
}

/// Focus after the keys in `input`: ArrowLeft gives it to the left pane,
/// ArrowRight to the right pane, Tab to the other pane, looked at in this
/// order.
pub open spec fn focus_after(focus: FocusState, input: KeyInput) -> FocusState {
    let after_left = if input.arrow_left {
        FocusState::LeftPane
    } else {
        focus
    };
    let after_right = if input.arrow_right {
        FocusState::RightPane
    } else {
        after_left
    };
    if input.tab {
        toggled(after_right)
    } else {
        after_right
    }
}

/// A pane after the keys of one frame have been decoded for it and sent to
/// its channel.
pub open spec fn keyed(
    pane: FilePaneContainer,
    focused: bool,
    input: KeyInput,
    rows: int,
) -> PaneState {
    PaneState {
        inbox: accepted(
            pane@.inbox,
            pane@.inbox_limit,
            decoded(pane.listed(), pane@.selection.cursor, focused, input, rows),
        ),
        ..pane@
    }
}

/// The two panes, the focus and the controls.
#[derive(Debug, PartialEq, Eq)]
pub struct DoublePaneView {
    pub left_file_pane: FilePaneContainer,
    pub right_file_pane: FilePaneContainer,
    pub focus_state: FocusState,
    pub pane_controls: PaneControls,
}

impl DoublePaneView {
    /// State of the pane that has focus.
    pub open spec fn focused(&self) -> PaneState {
        match self.focus_state {
            FocusState::LeftPane => self.left_file_pane@,
            FocusState::RightPane => self.right_file_pane@,
        }
    }

    /// State of the pane that has no focus.
    pub open spec fn unfocused(&self) -> PaneState {
        match self.focus_state {
            FocusState::LeftPane => self.right_file_pane@,
            FocusState::RightPane => self.left_file_pane@,
        }
    }

    /// State of the pane on `side`.
    pub open spec fn pane(&self, side: FocusState) -> PaneState {
        match side {
            FocusState::LeftPane => self.left_file_pane@,
            FocusState::RightPane => self.right_file_pane@,
        }
    }

    /// ArrowLeft gives focus to the left pane.
    pub fn handle_left_arrow(&mut self, input: &KeyInput)
        ensures
            *final(self) == (DoublePaneView {
                focus_state: if input.arrow_left {
                    FocusState::LeftPane
                } else {
                    old(self).focus_state
                },
                ..*old(self)
            }),
    {
        if input.arrow_left {
            self.focus_state = FocusState::LeftPane;
        }
    }

    /// ArrowRight gives focus to the right pane.
    pub fn handle_right_arrow(&mut self, input: &KeyInput)
        ensures
            *final(self) == (DoublePaneView {
                focus_state: if input.arrow_right {
                    FocusState::RightPane
                } else {
                    old(self).focus_state
                },
                ..*old(self)
            }),
    {
        if input.arrow_right {
            self.focus_state = FocusState::RightPane;
        }
    }

    /// Tab gives focus to the other pane.
    pub fn handle_tab(&mut self, input: &KeyInput)
        ensures
            *final(self) == (DoublePaneView {
                focus_state: if input.tab {
                    toggled(old(self).focus_state)
                } else {
                    old(self).focus_state
                },
                ..*old(self)
            }),
    {
        if input.tab {
            self.focus_state.next();
        }
    }

    /// Moves focus as the keys of the frame say.
    pub fn handle_focus_switch(&mut self, input: &KeyInput)
        ensures
            *final(self) == (DoublePaneView {
                focus_state: focus_after(old(self).focus_state, *input),
                ..*old(self)
            }),
    {
        self.handle_left_arrow(input);
        self.handle_right_arrow(input);
        self.handle_tab(input);
    }

    /// The picture of the left pane for one frame.
    pub fn left_view(&self) -> (picture: FilePaneView)
        ensures
            picture.items@ == self.left_file_pane.listed(),
            texts(picture.breadcrumbs@) == self.left_file_pane@.breadcrumbs,
            picture.cursor_index == self.left_file_pane@.selection.cursor,
            picture.selected_indices@ == self.left_file_pane@.selection.selected,
            picture.focused == (self.focus_state == FocusState::LeftPane),
    {
        self.left_file_pane.view_for(self.focus_state.is_left())
    }

    /// The picture of the right pane for one frame.
    pub fn right_view(&self) -> (picture: FilePaneView)
        ensures
            picture.items@ == self.right_file_pane.listed(),
            texts(picture.breadcrumbs@) == self.right_file_pane@.breadcrumbs,
            picture.cursor_index == self.right_file_pane@.selection.cursor,
            picture.selected_indices@ == self.right_file_pane@.selection.selected,
            picture.focused == (self.focus_state == FocusState::RightPane),
    {
        self.right_file_pane.view_for(self.focus_state.is_right())
    }

    /// Takes the keys of one frame: the pane with focus receives the
    /// intents decoded from them, F6 asks the controls for a move, and
    /// last the focus moves. `left_rows` and `right_rows` say how many rows
    /// fit in each pane.
    pub fn handle_keyboard(&mut self, input: &KeyInput, left_rows: isize, right_rows: isize)
        ensures
            final(self).left_file_pane@ == keyed(
                old(self).left_file_pane,
                old(self).focus_state == FocusState::LeftPane,
                *input,
                left_rows as int,
            ),
            final(self).right_file_pane@ == keyed(
                old(self).right_file_pane,
                old(self).focus_state == FocusState::RightPane,
                *input,
                right_rows as int,
            ),
            final(self).left_file_pane.listed() == old(self).left_file_pane.listed(),
            final(self).right_file_pane.listed() == old(self).right_file_pane.listed(),
            final(self).pane_controls.receiver@ == controls_after(
                old(self).pane_controls.receiver@,
                old(self).pane_controls.receiver.limit(),
                *input,
            ),
            final(self).pane_controls.receiver.limit() == old(self).pane_controls.receiver.limit(),
            final(self).focus_state == focus_after(old(self).focus_state, *input),
            coherent(old(self).left_file_pane@) ==> coherent(final(self).left_file_pane@),
            coherent(old(self).right_file_pane@) ==> coherent(final(self).right_file_pane@),
    {
        let left = self.left_view();
        let left_events = crate::keyboard::handle(&left, input, left_rows);
        self.left_file_pane.submit(left_events);
        let right = self.right_view();
        let right_events = crate::keyboard::handle(&right, input, right_rows);
        self.right_file_pane.submit(right_events);
        self.pane_controls.handle_keyboard(input);
        self.handle_focus_switch(input);
    }

    /// Takes the oldest event that waits for a pane, the left pane's
    /// before the right pane's, and says which pane it is for.
    pub fn next_navigation_event(&mut self) -> (next: Option<(FocusState, NavigatedEvent)>)
        ensures
            final(self).focus_state == old(self).focus_state,
            final(self).pane_controls == old(self).pane_controls,
            final(self).left_file_pane.listed() == old(self).left_file_pane.listed(),
            final(self).right_file_pane.listed() == old(self).right_file_pane.listed(),
            old(self).left_file_pane@.inbox.len() > 0 ==> {
                &&& next == Some((FocusState::LeftPane, old(self).left_file_pane@.inbox[0]))
                &&& final(self).left_file_pane@ == (PaneState {
                    inbox: old(self).left_file_pane@.inbox.drop_first(),
                    ..old(self).left_file_pane@
                })
                &&& final(self).right_file_pane@ == old(self).right_file_pane@
            },
            old(self).left_file_pane@.inbox.len() == 0 && old(self).right_file_pane@.inbox.len()
                > 0 ==> {
                &&& next == Some((FocusState::RightPane, old(self).right_file_pane@.inbox[0]))
                &&& final(self).right_file_pane@ == (PaneState {
                    inbox: old(self).right_file_pane@.inbox.drop_first(),
                    ..old(self).right_file_pane@
                })
                &&& final(self).left_file_pane@ == old(self).left_file_pane@
            },
            old(self).left_file_pane@.inbox.len() == 0 && old(self).right_file_pane@.inbox.len()
                == 0 ==> {
                &&& next is None
                &&& final(self).left_file_pane@ == old(self).left_file_pane@
                &&& final(self).right_file_pane@ == old(self).right_file_pane@
            },
    {
        match self.left_file_pane.next_event() {
            Some(event) => Some((FocusState::LeftPane, event)),
            None => match self.right_file_pane.next_event() {
                Some(event) => Some((FocusState::RightPane, event)),
                None => None,
            },
        }
    }

    /// The directory that has to be read before `event` can be applied to
    /// the pane on `side`.
    pub fn listing_target(&self, side: FocusState, event: &NavigatedEvent) -> (path: Option<String>)
        ensures
            match crate::container::listing_target(self.pane(side), *event) {
                Some(text) => path is Some && path->0@ == text,
                None => path is None,
            },
    {
        match side {
            FocusState::LeftPane => self.left_file_pane.listing_target(event),
            FocusState::RightPane => self.right_file_pane.listing_target(event),
        }
    }

    /// Applies `event` to the pane on `side`; the other pane, the focus
    /// and the controls stay as they are.
    pub fn handle_navigation_event(
        &mut self,
        side: FocusState,
        event: &NavigatedEvent,
        read: DirRead,
    ) -> (result: Result<Option<WatchSwitch>, FsError>)
        ensures
            final(self).pane(side) == after_event(old(self).pane(side), *event, read),
            final(self).pane(toggled(side)) == old(self).pane(toggled(side)),
            final(self).focus_state == old(self).focus_state,
            final(self).pane_controls == old(self).pane_controls,
            match event_outcome(old(self).pane(side), *event, read) {
                Ok(Some(view)) => result is Ok && result->Ok_0 is Some && result->Ok_0->0@ == view,
                Ok(None) => result is Ok && result->Ok_0 is None,
                Err(e) => result is Err && result->Err_0 == e,
            },
            coherent(old(self).pane(side)) && event_in_range(old(self).pane(side), *event)
                ==> coherent(final(self).pane(side)),
    {
        match side {
            FocusState::LeftPane => self.left_file_pane.handle_navigation_event(event, read),
            FocusState::RightPane => self.right_file_pane.handle_navigation_event(event, read),
        }
    }

    /// Takes the oldest request of the controls.
    pub fn next_controls_event(&mut self) -> (event: Option<PaneControlsEvent>)
        ensures
            final(self).left_file_pane == old(self).left_file_pane,
            final(self).right_file_pane == old(self).right_file_pane,
            final(self).focus_state == old(self).focus_state,
            final(self).pane_controls.receiver.limit() == old(self).pane_controls.receiver.limit(),
            old(self).pane_controls.receiver@.len() > 0 ==> event == Some(
                old(self).pane_controls.receiver@[0],
            ) && final(self).pane_controls.receiver@ == old(self).pane_controls.receiver@.drop_first(),
            old(self).pane_controls.receiver@.len() == 0 ==> event is None && final(self).pane_controls.receiver@ == old(self).pane_controls.receiver@,
    {
        self.pane_controls.receiver.try_recv()
    }

    /// Reacts to a request of the controls: for `MoveSelected`, the files
    /// to move from the pane with focus into the directory of the other
    /// pane.
    pub fn handle_pane_controls_event(&self, event: &PaneControlsEvent) -> (requests: Vec<
        MoveRequest,
    >)
        ensures
            requests@.map_values(|r: MoveRequest| r@) == requests_of(
                self.focused(),
                self.unfocused().path,
            ),
    {
        match self.focus_state {
            FocusState::LeftPane => self.left_file_pane.handle_pane_controls_event(
                event,
                self.right_file_pane.navigator().current_path(),
            ),
            FocusState::RightPane => self.right_file_pane.handle_pane_controls_event(
                event,
                self.left_file_pane.navigator().current_path(),
            ),
        }
    }

    /// Ends a move: the pane with focus takes its listing after the batch
    /// and puts its cursor behind what was selected, the other pane is
    /// listed anew. The first result is that of the pane with focus, the
    /// second that of the other pane; a listing that fails leaves its pane
    /// as it was.
    pub fn finish_move(&mut self, focused_read: DirRead, other_read: DirRead) -> (results: (
        Result<(), FsError>,
        Result<(), FsError>,
    ))
        ensures
            final(self).focus_state == old(self).focus_state,
            final(self).pane_controls == old(self).pane_controls,
            final(self).focused() == after_move(old(self).focused(), focused_read),
            final(self).unfocused() == (match listing(old(self).unfocused().path, other_read) {
                Ok(items) => refreshed(old(self).unfocused(), items),
                Err(_) => old(self).unfocused(),
            }),
            match listing(old(self).focused().path, focused_read) {
                Ok(_) => results.0 is Ok,
                Err(e) => results.0 == Err::<(), FsError>(e),
            },
            match listing(old(self).unfocused().path, other_read) {
                Ok(_) => results.1 is Ok,
                Err(e) => results.1 == Err::<(), FsError>(e),
            },
    {
        match self.focus_state {
            FocusState::LeftPane => {
                let moved = self.left_file_pane.move_selected(focused_read);
                let listed = self.right_file_pane.refresh_items(other_read);
                (moved, listed)
            },
            FocusState::RightPane => {
                let moved = self.right_file_pane.move_selected(focused_read);
                let listed = self.left_file_pane.refresh_items(other_read);
                (moved, listed)
            },
        }
    }
}

/// The commander's two panes.
#[derive(Debug, PartialEq, Eq)]
pub struct DoublePane {
    pub view: DoublePaneView,
}

impl DoublePane {
    /// Two panes on the directories `left` and `right`, from what reading
    /// each of them gave. Focus starts on the left pane. A listing that
    /// fails gives no panes; the left one's error comes first.
    pub fn new(left: &String, right: &String, left_read: DirRead, right_read: DirRead) -> (panes:
        Result<DoublePane, FsError>)
        ensures
            match (listing(left@, left_read), listing(right@, right_read)) {
                (Ok(left_items), Ok(right_items)) => {
                    &&& panes is Ok
                    &&& panes->Ok_0.view.left_file_pane@ == crate::container::started(
                        left@,
                        left_items,
                    )
                    &&& panes->Ok_0.view.right_file_pane@ == crate::container::started(
                        right@,
                        right_items,
                    )
                    &&& panes->Ok_0.view.focus_state == FocusState::LeftPane
                    &&& panes->Ok_0.view.pane_controls.receiver@ == Seq::<
                        PaneControlsEvent,
                    >::empty()
                    &&& panes->Ok_0.view.pane_controls.receiver.limit() == CONTROLS_CAPACITY
                    &&& coherent(panes->Ok_0.view.left_file_pane@)
                    &&& coherent(panes->Ok_0.view.right_file_pane@)
                },
                (Err(e), _) => panes is Err && panes->Err_0 == e,
                (Ok(_), Err(e)) => panes is Err && panes->Err_0 == e,
            },
    {
        let left_pane = match FilePaneContainer::new(Navigator::new(left), left_read) {
            Ok(pane) => pane,
            Err(e) => {
                return Err(e);
            },
        };
        let right_pane = match FilePaneContainer::new(Navigator::new(right), right_read) {
            Ok(pane) => pane,
            Err(e) => {
                return Err(e);
            },
        };
        Ok(
            DoublePane {
                view: DoublePaneView {
                    left_file_pane: left_pane,
                    right_file_pane: right_pane,
                    focus_state: FocusState::LeftPane,
                    pane_controls: PaneControls::new(),
                },
            },
        )
    }
}

/// Focus follows the keys: ArrowLeft alone focuses the left pane and
/// ArrowRight alone the right pane, whatever had focus; Tab alone hands
/// focus over; without any of the three focus stays.
pub proof fn law_focus_keys(focus: FocusState, input: KeyInput)
    ensures
        input.arrow_left && !input.arrow_right && !input.tab ==> focus_after(focus, input)
            == FocusState::LeftPane,
        input.arrow_right && !input.tab ==> focus_after(focus, input) == FocusState::RightPane,
        input.tab && !input.arrow_left && !input.arrow_right ==> focus_after(focus, input)
            == toggled(focus),
        !input.tab && !input.arrow_left && !input.arrow_right ==> focus_after(focus, input)
            == focus,
{
}

} // verus!

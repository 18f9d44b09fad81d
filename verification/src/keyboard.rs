//! Keyboard decoder: from the keys that went down in a frame to the
//! intents that a pane receives.
//!
//! Single-row moves stop at the ends of the listing; page moves wrap
//! around.

use vstd::prelude::*;
use vstd::arithmetic::div_mod::{
    lemma_add_mod_noop,
    lemma_fundamental_div_mod,
    lemma_fundamental_div_mod_converse,
    lemma_mod_bound,
    lemma_small_mod,
};
use crate::model::{targets_row, Item, ItemType, MoveDirection, NavigatedEvent};
use crate::view::FilePaneView;

verus! {

/// The keys that went down in one frame, and the modifiers held with them.
#[derive(Clone, Copy, Debug, PartialEq, Eq, Structural)]
pub struct KeyInput {
    pub backspace: bool,
    pub enter: bool,
    pub arrow_up: bool,
    pub arrow_down: bool,
    pub page_up: bool,
    pub page_down: bool,
    pub arrow_left: bool,
    pub arrow_right: bool,
    pub tab: bool,
    pub f6: bool,
    /// Extends a range from the anchor.
    pub shift: bool,
    /// Adds the range to the selection.
    pub ctrl: bool,
}

/// `target` held to the rows of a listing of `len` items.
pub open spec fn clamp_row(target: int, len: int) -> int {
    if target < 0 {
        0
    } else if target > len - 1 {
        len - 1
    } else {
        target
    }
}

/// `target` wrapped around a listing of `len` items.
pub open spec fn wrap_row(target: int, len: int) -> int {
    target % len
}

/// Rows of a page: what fits in the pane, and at least one.
pub open spec fn page_step_of(rows: int) -> int {
    if rows >= 1 {
        rows
    } else {
        1
    }
}

/// The intent of Backspace.
pub open spec fn backspace_event() -> Option<NavigatedEvent> {
    Some(NavigatedEvent::TraversedUp)
}

/// The intent of Enter: open the item under the cursor if it is a
/// directory.
pub open spec fn enter_event(items: Seq<Item>, cursor: usize) -> Option<NavigatedEvent> {
    if cursor < items.len() && items[cursor as int].item_type == ItemType::Directory {
        Some(NavigatedEvent::DirectoryOpened(items[cursor as int].path))
    } else {
        None
    }
}

/// The intent of a move by `delta` rows in `direction`: none in an empty
/// listing, else a move to the row that `delta` leads to, held to the
/// listing.
pub open spec fn cursor_event(
    len: nat,
    cursor: usize,
    delta: int,
    direction: MoveDirection,
    shift: bool,
    ctrl: bool,
) -> Option<NavigatedEvent> {
    if len == 0 {
        None
    } else {
        Some(
            NavigatedEvent::SelectionMoved {
                index: clamp_row(cursor + delta, len as int) as usize,
                selection: shift,
                additive: ctrl,
                direction: Some(direction),
            },
        )
    }
}

/// The intent of a move by `amount` rows that wraps around: none in an
/// empty listing, else a plain move without direction.
pub open spec fn page_event(len: nat, cursor: usize, amount: int) -> Option<NavigatedEvent> {
    if len == 0 {
        None
    } else {
        Some(
            NavigatedEvent::SelectionMoved {
                index: wrap_row(cursor + amount, len as int) as usize,
                selection: false,
                additive: false,
                direction: None,
            },
        )
    }
}

/// `events` with `event` behind it, if there is one.
pub open spec fn with(events: Seq<NavigatedEvent>, event: Option<NavigatedEvent>) -> Seq<
    NavigatedEvent,
> {
    match event {
        Some(e) => events.push(e),
        None => events,
    }
}

/// The intent of one key, if it went down.
pub open spec fn when(pressed: bool, event: Option<NavigatedEvent>) -> Option<NavigatedEvent> {
    if pressed {
        event
    } else {
        None
    }
}

/// The intents of one frame for a pane that shows `items` with the cursor
/// at `cursor`, in the order in which the keys are looked at: Backspace,
/// Enter, ArrowUp, ArrowDown, PageUp, PageDown. A pane without focus
/// receives none.
pub open spec fn decoded(
    items: Seq<Item>,
    cursor: usize,
    focused: bool,
    input: KeyInput,
    rows: int,
) -> Seq<NavigatedEvent> {
    if !focused {
        Seq::empty()
    } else {
        let len = items.len();
        let e0 = Seq::empty();
        let e1 = with(e0, when(input.backspace, backspace_event()));
        let e2 = with(e1, when(input.enter, enter_event(items, cursor)));
        let e3 = with(
            e2,
            when(
                input.arrow_up,
                cursor_event(len, cursor, -1, MoveDirection::Up, input.shift, input.ctrl),
            ),
        );
        let e4 = with(
            e3,
            when(
                input.arrow_down,
                cursor_event(len, cursor, 1, MoveDirection::Down, input.shift, input.ctrl),
            ),
        );
        let e5 = with(e4, when(input.page_up, page_event(len, cursor, -page_step_of(rows))));
        with(e5, when(input.page_down, page_event(len, cursor, page_step_of(rows))))
    }
}

/// Number of rows that a page move covers, from the number of rows that
/// fit in the pane.
pub fn page_step(rows: isize) -> (step: isize)
    ensures
        step == page_step_of(rows as int),
{
    if rows >= 1 {
        rows
    } else {
        1
    }
}

/// Backspace goes to the parent directory.
pub fn handle_backspace(input: &KeyInput) -> (event: Option<NavigatedEvent>)
    ensures
        event == when(input.backspace, backspace_event()),
{
    if input.backspace {
        Some(NavigatedEvent::TraversedUp)
    } else {
        None
    }
}

/// Enter opens the directory under the cursor; on a file, or with the
/// cursor outside the listing, it does nothing.
pub fn handle_enter(view: &FilePaneView, input: &KeyInput) -> (event: Option<NavigatedEvent>)
    ensures
        event == when(input.enter, enter_event(view.items@, view.cursor_index)),
{
    if !input.enter {
        return None;
    }
    match view.get_cursor_item() {
        Some(item) => match item.item_type {
            ItemType::Directory => Some(NavigatedEvent::DirectoryOpened(item.path.clone())),
            ItemType::File => None,
        },
        None => None,
    }
}

/// ArrowDown moves the cursor one row down, Shift and Ctrl shaping the
/// selection.
pub fn handle_arrow_down(view: &FilePaneView, input: &KeyInput) -> (event: Option<NavigatedEvent>)
    ensures
        event == when(
            input.arrow_down,
            cursor_event(
                view.items@.len(),
                view.cursor_index,
                1,
                MoveDirection::Down,
                input.shift,
                input.ctrl,
            ),
        ),
{
    if input.arrow_down {
        move_cursor(view, 1, MoveDirection::Down, input.shift, input.ctrl)
    } else {
        None
    }
}

/// ArrowUp moves the cursor one row up, Shift and Ctrl shaping the
/// selection.
pub fn handle_arrow_up(view: &FilePaneView, input: &KeyInput) -> (event: Option<NavigatedEvent>)
    ensures
        event == when(
            input.arrow_up,
            cursor_event(
                view.items@.len(),
                view.cursor_index,
                -1,
                MoveDirection::Up,
                input.shift,
                input.ctrl,
            ),
        ),
{
    if input.arrow_up {
        move_cursor(view, -1, MoveDirection::Up, input.shift, input.ctrl)
    } else {
        None
    }
}

/// PageDown moves the cursor one page down and wraps around.
pub fn handle_page_down(view: &FilePaneView, input: &KeyInput, rows: isize) -> (event: Option<
    NavigatedEvent,
>)
    ensures
        event == when(
            input.page_down,
            page_event(view.items@.len(), view.cursor_index, page_step_of(rows as int)),
        ),
{
    if input.page_down {
        navigate(view, page_step(rows))
    } else {
        None
    }
}

/// PageUp moves the cursor one page up and wraps around.
pub fn handle_page_up(view: &FilePaneView, input: &KeyInput, rows: isize) -> (event: Option<
    NavigatedEvent,
>)
    ensures
        event == when(
            input.page_up,
            page_event(view.items@.len(), view.cursor_index, -page_step_of(rows as int)),
        ),
{
    if input.page_up {
        navigate(view, -page_step(rows))
    } else {
        None
    }
}

/// The move of the cursor by `delta` rows, held to the listing.
pub fn move_cursor(
    view: &FilePaneView,
    delta: isize,
    direction: MoveDirection,
    shift: bool,
    ctrl: bool,
) -> (event: Option<NavigatedEvent>)
    ensures
        event == cursor_event(
            view.items@.len(),
            view.cursor_index,
            delta as int,
            direction,
            shift,
            ctrl,
        ),
{
    let len = view.item_count();
    if len == 0 {
        return None;
    }
    let cursor = view.cursor_index();
    let last = len - 1;
    let new_index = if delta >= 0 {
        let forward = delta as usize;
        if cursor >= last || forward >= last - cursor {
            last
        } else {
            cursor + forward
        }
    } else {
        let back_less_one = (-(delta + 1)) as usize;
        if back_less_one >= cursor {
            0
        } else {
            let target = cursor - back_less_one - 1;
            if target > last {
                last
            } else {
                target
            }
        }
    };
    Some(
        NavigatedEvent::SelectionMoved {
            index: new_index,
            selection: shift,
            additive: ctrl,
            direction: Some(direction),
        },
    )
}

/// `amount` reduced to a row offset of a listing of `len` items.
fn offset_in(amount: isize, len: usize) -> (offset: usize)
    requires
        len > 0,
    ensures
        offset == (amount as int) % (len as int),
        offset < len,
{
    if amount >= 0 {
        let offset = (amount as usize) % len;
        offset
    } else {
        let back_less_one = (-(amount + 1)) as usize;
        let rest = back_less_one % len;
        let offset = len - 1 - rest;
        proof {
            let m = back_less_one as int;
            let d = len as int;
            lemma_fundamental_div_mod(m, d);
            lemma_mod_bound(m, d);
            let q = m / d;
            assert(amount as int == (-q - 1) * d + (d - 1 - m % d)) by (nonlinear_arith)
                requires
                    amount as int == -m - 1,
                    m == d * q + m % d,
            ;
            lemma_fundamental_div_mod_converse(amount as int, d, -q - 1, d - 1 - m % d);
        }
        offset
    }
}

/// The move of the cursor by `amount` rows, wrapping around the listing.
pub fn navigate(view: &FilePaneView, amount: isize) -> (event: Option<NavigatedEvent>)
    ensures
        event == page_event(view.items@.len(), view.cursor_index, amount as int),
{
    let len = view.item_count();
    if len == 0 {
        return None;
    }
    let from = view.cursor_index() % len;
    let offset = offset_in(amount, len);
    let new_index = if from >= len - offset {
        from - (len - offset)
    } else {
        from + offset
    };
    proof {
        let c = view.cursor_index as int;
        let a = amount as int;
        let d = len as int;
        lemma_add_mod_noop(c, a, d);
        assert((c + a) % d == (from + offset) % d);
        if from >= len - offset {
            lemma_fundamental_div_mod_converse(from + offset, d, 1, new_index as int);
        } else {
            lemma_small_mod((from + offset) as nat, d as nat);
        }
    }
    Some(
        NavigatedEvent::SelectionMoved {
            index: new_index,
            selection: false,
            additive: false,
            direction: None,
        },
    )
}

/// Decodes the keys of one frame for a pane. The intents come in the
/// order in which they are to be sent to the pane.
pub fn handle(view: &FilePaneView, input: &KeyInput, rows: isize) -> (events: Vec<NavigatedEvent>)
    ensures
        events@ == decoded(view.items@, view.cursor_index, view.focused, *input, rows as int),
{
    let mut events: Vec<NavigatedEvent> = Vec::new();
    if !view.focused {
        return events;
    }
    if let Some(event) = handle_backspace(input) {
        events.push(event);
    }
    if let Some(event) = handle_enter(view, input) {
        events.push(event);
    }
    if let Some(event) = handle_arrow_up(view, input) {
        events.push(event);
    }
    if let Some(event) = handle_arrow_down(view, input) {
        events.push(event);
    }
    if let Some(event) = handle_page_up(view, input, rows) {
        events.push(event);
    }
    if let Some(event) = handle_page_down(view, input, rows) {
        events.push(event);
    }
    events
}

/// The decoder never points outside the listing: wherever the cursor
/// stands and whatever keys went down, each decoded movement leads to a row
/// of the listing, single-row moves by stopping at the ends and page moves
/// by wrapping around.
pub proof fn law_decoded_moves_stay_in_listing(
    items: Seq<Item>,
    cursor: usize,
    focused: bool,
    input: KeyInput,
    rows: int,
)
    requires
        items.len() <= usize::MAX,
    ensures
        forall|k: int|
            0 <= k < decoded(items, cursor, focused, input, rows).len() ==> targets_row(
                #[trigger] decoded(items, cursor, focused, input, rows)[k],
                items.len(),
            ),
{
    let len = items.len();
    if len > 0 {
        lemma_mod_bound(cursor + page_step_of(rows), len as int);
        lemma_mod_bound(cursor - page_step_of(rows), len as int);
    }
    let up = cursor_event(len, cursor, -1, MoveDirection::Up, input.shift, input.ctrl);
    let down = cursor_event(len, cursor, 1, MoveDirection::Down, input.shift, input.ctrl);
    let page_up = page_event(len, cursor, -page_step_of(rows));
    let page_down = page_event(len, cursor, page_step_of(rows));
    assert(up matches Some(e) ==> targets_row(e, len));
    assert(down matches Some(e) ==> targets_row(e, len));
    assert(page_up matches Some(e) ==> targets_row(e, len));
    assert(page_down matches Some(e) ==> targets_row(e, len));
}

} // verus!

//! Selection model of one pane: a cursor, an anchor for ranges, the set of
//! selected indices and the direction of the last movement.

use std::collections::BTreeSet;
use vstd::prelude::*;
use crate::model::MoveDirection;

verus! {

/// An event that the selection model reacts to.
#[derive(Clone, Copy, Debug, PartialEq, Eq, Structural)]
pub enum SelectionEvent {
    /// Move the cursor to `index`. With `extend` the range between anchor
    /// and `index` is selected; with `additive` too, it is added to what is
    /// selected already.
    Move { index: usize, extend: bool, additive: bool, direction: Option<MoveDirection> },
    /// Select `index` alone: a `Move` that neither extends nor names a
    /// direction.
    SelectSingle { index: usize },
    /// Drop the selection, forget the last direction and go back to the
    /// first item.
    Reset,
}

/// Mathematical state of the selection model.
pub struct SelectionState {
    pub cursor: usize,
    pub anchor: Option<usize>,
    pub selected: Set<usize>,
    pub last_direction: Option<MoveDirection>,
}

/// The indices from the smaller to the larger of `a` and `b`, both included.
pub open spec fn span(a: usize, b: usize) -> Set<usize> {
    Set::new(|i: usize| (a <= i <= b) || (b <= i <= a))
}

/// The state before any event: nothing selected, cursor on the first row,
/// no anchor.
pub open spec fn initial() -> SelectionState {
    SelectionState { cursor: 0, anchor: None, selected: Set::empty(), last_direction: None }
}

/// The anchor that a range starts from: the stored one, or the cursor
/// where none is stored.
pub open spec fn range_anchor(s: SelectionState) -> usize {
    match s.anchor {
        Some(a) => a,
        None => s.cursor,
    }
}

/// The anchor of an additive range: a movement in another direction than
/// the last one starts a new block at the cursor.
pub open spec fn additive_anchor(s: SelectionState, direction: Option<MoveDirection>) -> usize {
    if direction != s.last_direction {
        s.cursor
    } else {
        range_anchor(s)
    }
}

/// The state after one event, for a list of `len` items.
pub open spec fn step(s: SelectionState, event: SelectionEvent, len: usize) -> SelectionState {
    match event {
        SelectionEvent::Move { index, extend, additive, direction } => {
            if !extend {
                SelectionState {
                    cursor: index,
                    anchor: Some(index),
                    selected: set![index],
                    last_direction: direction,
                }
            } else if !additive {
                SelectionState {
                    cursor: index,
                    anchor: Some(range_anchor(s)),
                    selected: span(range_anchor(s), index),
                    last_direction: direction,
                }
            } else {
                SelectionState {
                    cursor: index,
                    anchor: Some(additive_anchor(s, direction)),
                    selected: s.selected.union(span(additive_anchor(s, direction), index)),
                    last_direction: direction,
                }
            }
        },
        SelectionEvent::SelectSingle { index } => SelectionState {
            cursor: index,
            anchor: Some(index),
            selected: set![index],
            last_direction: None,
        },
        SelectionEvent::Reset => SelectionState {
            cursor: 0,
            anchor: if len > 0 {
                Some(0usize)
            } else {
                None
            },
            selected: Set::empty(),
            last_direction: None,
        },
    }
}

/// The state after a sequence of events, first to last.
pub open spec fn run(s: SelectionState, events: Seq<SelectionEvent>, len: usize) -> SelectionState
    decreases events.len(),
{
    if events.len() == 0 {
        s
    } else {
        step(run(s, events.drop_last(), len), events.last(), len)
    }
}

/// Cursor, anchor and every selected index point into a list of `len`
/// items; for an empty list nothing is selected, there is no anchor and the
/// cursor rests at 0.
pub open spec fn valid(s: SelectionState, len: usize) -> bool {
    if len == 0 {
        s.cursor == 0 && s.anchor is None && s.selected == Set::<usize>::empty()
    } else {
        &&& s.cursor < len
        &&& s.anchor matches Some(a) ==> a < len
        &&& forall|i: usize| s.selected.contains(i) ==> i < len
    }
}

/// The event names no index, or one inside a list of `len` items.
pub open spec fn in_range(event: SelectionEvent, len: usize) -> bool {
    match event {
        SelectionEvent::Move { index, .. } => index < len,
        SelectionEvent::SelectSingle { index } => index < len,
        SelectionEvent::Reset => true,
    }
}

/// Largest selected index, if any is selected.
pub open spec fn is_max_of(selected: Set<usize>, max: Option<usize>) -> bool {
    match max {
        Some(m) => selected.contains(m) && forall|i: usize| selected.contains(i) ==> i <= m,
        None => selected == Set::<usize>::empty(),
    }
}

/// The largest selected index, if any is selected.
pub open spec fn max_of(selected: Set<usize>) -> Option<usize> {
    if selected == Set::<usize>::empty() {
        None
    } else {
        Some(choose|m: usize| is_max_of(selected, Some(m)))
    }
}

/// The selection of a pane that has just listed `len` items: the first
/// item alone, or nothing in an empty directory.
pub open spec fn fresh(len: usize) -> SelectionState {
    if len > 0 {
        step(initial(), SelectionEvent::SelectSingle { index: 0 }, len)
    } else {
        initial()
    }
}

/// The selected indices below `len`, in ascending order.
pub open spec fn selected_rows(selected: Set<usize>, len: nat) -> Seq<usize>
    decreases len,
{
    if len == 0 {
        Seq::empty()
    } else {
        let below = selected_rows(selected, (len - 1) as nat);
        if selected.contains((len - 1) as usize) {
            below.push((len - 1) as usize)
        } else {
            below
        }
    }
}

/// The selection model. `apply` is the mutator that the events go
/// through; the other mutators are the steps it is made of.
#[derive(Debug, PartialEq, Eq)]
pub struct SelectionModel {
    cursor_index: usize,
    selection_anchor: Option<usize>,
    selected_indices: BTreeSet<usize>,
    last_direction: Option<MoveDirection>,
}

impl View for SelectionModel {
    type V = SelectionState;

    closed spec fn view(&self) -> SelectionState {
        SelectionState {
            cursor: self.cursor_index,
            anchor: self.selection_anchor,
            selected: self.selected_indices@,
            last_direction: self.last_direction,
        }
    }
}

impl Clone for SelectionModel {
    fn clone(&self) -> (copy: Self)
        ensures
            copy@ == self@,
    {
        SelectionModel {
            cursor_index: self.cursor_index,
            selection_anchor: self.selection_anchor,
            selected_indices: self.selected_indices.clone(),
            last_direction: self.last_direction,
        }
    }
}

impl SelectionModel {
    /// The model before any event.
    pub fn new() -> (model: Self)
        ensures
            model@ == initial(),
    {
        SelectionModel {
            cursor_index: 0,
            selection_anchor: None,
            selected_indices: BTreeSet::new(),
            last_direction: None,
        }
    }

    /// Index of the item under the cursor.
    pub fn cursor_index(&self) -> (cursor: usize)
        ensures
            cursor == self@.cursor,
    {
        self.cursor_index
    }

    /// Reference point of range selections.
    pub fn selection_anchor(&self) -> (anchor: Option<usize>)
        ensures
            anchor == self@.anchor,
    {
        self.selection_anchor
    }

    /// Direction of the most recent movement.
    pub fn last_direction(&self) -> (direction: Option<MoveDirection>)
        ensures
            direction == self@.last_direction,
    {
        self.last_direction
    }

    /// The selected indices.
    pub fn get_selected_indices(&self) -> (selected: &BTreeSet<usize>)
        ensures
            selected@ == self@.selected,
    {
        &self.selected_indices
    }

    /// Whether `index` is selected.
    pub fn is_selected(&self, index: usize) -> (yes: bool)
        ensures
            yes == self@.selected.contains(index),
    {
        self.selected_indices.contains(&index)
    }

    /// The largest selected index.
    pub fn max_selected(&self) -> (max: Option<usize>)
        ensures
            is_max_of(self@.selected, max),
            max == max_of(self@.selected),
    {
        broadcast use vstd::seq_lib::group_seq_properties;

        let mut best: Option<usize> = None;
        for x in it: self.selected_indices.iter()
            invariant
                it.seq().unref().to_set() == self.selected_indices@,
                forall|i: usize| #[trigger]
                    self.selected_indices@.contains(i) ==> it.seq().unref().contains(i),
                match best {
                    Some(m) => self.selected_indices@.contains(m) && forall|j: int|
                        0 <= j < it.index() ==> (#[trigger] it.seq().unref()[j]) <= m,
                    None => it.index() == 0,
                },
        {
            assert(it.seq().unref()[it.index()] == *x);
            assert(it.seq().unref().to_set().contains(*x));
            best = match best {
                Some(m) => if *x > m {
                    Some(*x)
                } else {
                    Some(m)
                },
                None => Some(*x),
            };
        }
        assert(best is None ==> self.selected_indices@ =~= Set::<usize>::empty());
        proof {
            if let Some(m) = best {
                assert(is_max_of(self@.selected, Some(m)));
                assert(self@.selected.contains(m));
                assert(self@.selected != Set::<usize>::empty());
            }
        }
        best
    }

    /// The selection of a pane that has just listed `item_count` items.
    pub fn fresh(item_count: usize) -> (model: Self)
        ensures
            model@ == fresh(item_count),
    {
        let mut model = SelectionModel::new();
        if item_count > 0 {
            model.apply(SelectionEvent::SelectSingle { index: 0 }, item_count);
        }
        model
    }

    /// Puts cursor and anchor on the first item of a list that has one;
    /// changes nothing for an empty list.
    pub fn move_cursor_to_first(&mut self, item_count: usize)
        ensures
            item_count > 0 ==> final(self)@ == (SelectionState {
                cursor: 0,
                anchor: Some(0usize),
                ..old(self)@
            }),
            item_count == 0 ==> final(self)@ == old(self)@,
    {
        if item_count > 0 {
            self.cursor_index = 0;
            self.selection_anchor = Some(0);
        }
    }

    /// Selects `index` alone and puts cursor and anchor there.
    pub fn select_single(&mut self, index: usize)
        ensures
            final(self)@ == (SelectionState {
                cursor: index,
                anchor: Some(index),
                selected: set![index],
                ..old(self)@
            }),
    {
        self.selected_indices.clear();
        self.selected_indices.insert(index);
        self.cursor_index = index;
        self.selection_anchor = Some(index);
        assert(self.selected_indices@ =~= set![index]);
    }

    /// Adds every index from `start` to `end`, both included.
    fn insert_span(&mut self, start: usize, end: usize)
        requires
            start <= end,
        ensures
            final(self)@ == (SelectionState {
                selected: old(self)@.selected.union(span(start, end)),
                ..old(self)@
            }),
    {
        let mut i: usize = start;
        while i < end
            invariant
                start <= i <= end,
                self.cursor_index == old(self).cursor_index,
                self.selection_anchor == old(self).selection_anchor,
                self.last_direction == old(self).last_direction,
                self.selected_indices@ =~= old(self)@.selected.union(
                    Set::new(|j: usize| start <= j < i),
                ),
            decreases end - i,
        {
            self.selected_indices.insert(i);
            assert(self.selected_indices@ =~= old(self)@.selected.union(
                Set::new(|j: usize| start <= j < i + 1),
            ));
            i = i + 1;
        }
        self.selected_indices.insert(end);
        assert(self.selected_indices@ =~= old(self)@.selected.union(span(start, end)));
    }

    /// Replaces the selection by the range between `anchor` and `index`,
    /// puts the cursor on `index` and keeps `anchor` as the anchor.
    pub fn select_range(&mut self, anchor: usize, index: usize)
        ensures
            final(self)@ == (SelectionState {
                cursor: index,
                anchor: Some(anchor),
                selected: span(anchor, index),
                ..old(self)@
            }),
    {
        let (start, end) = if anchor <= index {
            (anchor, index)
        } else {
            (index, anchor)
        };
        self.selected_indices.clear();
        self.insert_span(start, end);
        self.cursor_index = index;
        self.selection_anchor = Some(anchor);
        assert(self.selected_indices@ =~= span(anchor, index));
    }

    /// Adds the range between `anchor` and `index` to the selection, puts
    /// the cursor on `index` and keeps `anchor` as the anchor.
    pub fn add_range_to_selection(&mut self, anchor: usize, index: usize)
        ensures
            final(self)@ == (SelectionState {
                cursor: index,
                anchor: Some(anchor),
                selected: old(self)@.selected.union(span(anchor, index)),
                ..old(self)@
            }),
    {
        let (start, end) = if anchor <= index {
            (anchor, index)
        } else {
            (index, anchor)
        };
        self.insert_span(start, end);
        self.cursor_index = index;
        self.selection_anchor = Some(anchor);
        assert(self.selected_indices@ =~= old(self)@.selected.union(span(anchor, index)));
    }

    /// Moves the anchor to the cursor where a movement in `direction`
    /// follows one in another direction, `prev_dir`.
    pub fn reset_anchor_if_diff_dir(
        &mut self,
        direction: Option<MoveDirection>,
        prev_dir: Option<MoveDirection>,
    )
        ensures
            prev_dir != direction ==> final(self)@ == (SelectionState {
                anchor: Some(old(self)@.cursor),
                ..old(self)@
            }),
            prev_dir == direction ==> final(self)@ == old(self)@,
    {
        if !same_direction(prev_dir, direction) {
            self.selection_anchor = Some(self.cursor_index);
        }
    }

    /// Reacts to a cursor movement: the `Move` event with `selection` as
    /// its `extend`.
    pub fn handle_selection_moved(
        &mut self,
        index: usize,
        selection: bool,
        additive: bool,
        direction: Option<MoveDirection>,
    )
        ensures
            forall|len: usize|
                final(self)@ == #[trigger] step(
                    old(self)@,
                    SelectionEvent::Move { index, extend: selection, additive, direction },
                    len,
                ),
    {
        let prev_dir = self.last_direction;
        self.last_direction = direction;
        if selection && additive {
            self.reset_anchor_if_diff_dir(direction, prev_dir);
            let anchor = match self.selection_anchor {
                Some(a) => a,
                None => self.cursor_index,
            };
            self.add_range_to_selection(anchor, index);
        } else if selection {
            let anchor = match self.selection_anchor {
                Some(a) => a,
                None => self.cursor_index,
            };
            self.select_range(anchor, index);
        } else {
            self.select_single(index);
        }
    }

    /// Drops the selection, forgets the last direction and goes back to the
    /// first item of a list of `item_count` items; for an empty list there
    /// is no anchor either.
    pub fn reset(&mut self, item_count: usize)
        ensures
            final(self)@ == step(old(self)@, SelectionEvent::Reset, item_count),
    {
        self.selected_indices.clear();
        self.cursor_index = 0;
        self.selection_anchor = if item_count > 0 {
            Some(0)
        } else {
            None
        };
        self.last_direction = None;
    }

    /// Applies one event to the model of a list of `item_count` items.
    pub fn apply(&mut self, event: SelectionEvent, item_count: usize)
        ensures
            final(self)@ == step(old(self)@, event, item_count),
            valid(old(self)@, item_count) && in_range(event, item_count) ==> valid(
                final(self)@,
                item_count,
            ),
    {
        proof {
            law_step_keeps_valid(self@, event, item_count);
        }
        match event {
            SelectionEvent::Move { index, extend, additive, direction } => {
                self.handle_selection_moved(index, extend, additive, direction);
            },
            SelectionEvent::SelectSingle { index } => {
                self.select_single(index);
                self.last_direction = None;
            },
            SelectionEvent::Reset => {
                self.reset(item_count);
            },
        }
    }
}

/// Whether two optional directions are the same.
pub fn same_direction(a: Option<MoveDirection>, b: Option<MoveDirection>) -> (same: bool)
    ensures
        same == (a == b),
{
    match (a, b) {
        (None, None) => true,
        (Some(MoveDirection::Up), Some(MoveDirection::Up)) => true,
        (Some(MoveDirection::Down), Some(MoveDirection::Down)) => true,
        _ => false,
    }
}

/// `selected_rows` holds exactly the selected indices below `len`, each
/// once, smaller before larger.
pub proof fn law_selected_rows(selected: Set<usize>, len: nat)
    requires
        len <= usize::MAX,
    ensures
        forall|k: int|
            0 <= k < selected_rows(selected, len).len() ==> selected.contains(
                #[trigger] selected_rows(selected, len)[k],
            ) && selected_rows(selected, len)[k] < len,
        forall|j: int, k: int|
            0 <= j < k < selected_rows(selected, len).len() ==> selected_rows(selected, len)[j]
                < selected_rows(selected, len)[k],
        forall|i: usize|
            i < len && selected.contains(i) ==> selected_rows(selected, len).contains(i),
        selected_rows(selected, len).len() <= len,
    decreases len,
{
    if len > 0 {
        let below = selected_rows(selected, (len - 1) as nat);
        let rows = selected_rows(selected, len);
        law_selected_rows(selected, (len - 1) as nat);
        assert forall|i: usize| i < len && selected.contains(i) implies rows.contains(i) by {
            if i < len - 1 {
                assert(below.contains(i));
                let k = choose|k: int| 0 <= k < below.len() && below[k] == i;
                assert(rows[k] == i);
            } else {
                assert(rows[rows.len() - 1] == i);
            }
        }
    }
}

/// One event whose index lies in the list keeps the state valid.
pub proof fn law_step_keeps_valid(s: SelectionState, event: SelectionEvent, len: usize)
    ensures
        valid(s, len) && in_range(event, len) ==> valid(step(s, event, len), len),
{
}

/// Validity: against a list that is not empty, after any sequence of
/// events whose indices lie in the list, the cursor, the anchor and every
/// selected index are valid indices.
pub proof fn law_validity(s: SelectionState, events: Seq<SelectionEvent>, len: usize)
    requires
        len > 0,
        valid(s, len),
        forall|k: int| 0 <= k < events.len() ==> in_range(#[trigger] events[k], len),
    ensures
        valid(run(s, events, len), len),
    decreases events.len(),
{
    if events.len() > 0 {
        law_validity(s, events.drop_last(), len);
        law_step_keeps_valid(run(s, events.drop_last(), len), events.last(), len);
    }
}

/// Single-select reset: whatever the state was, selecting `index` alone
/// leaves exactly `index` selected, with cursor and anchor on it.
pub proof fn law_select_single(s: SelectionState, index: usize, len: usize)
    ensures
        step(s, SelectionEvent::SelectSingle { index }, len).selected == set![index],
        step(s, SelectionEvent::SelectSingle { index }, len).cursor == index,
        step(s, SelectionEvent::SelectSingle { index }, len).anchor == Some(index),
        step(s, SelectionEvent::SelectSingle { index }, len) == step(
            s,
            SelectionEvent::Move { index, extend: false, additive: false, direction: None },
            len,
        ),
{
}

/// Range symmetry: with the anchor at `a`, an extending move to `b` that
/// is not additive selects exactly the indices from `min(a, b)` to
/// `max(a, b)`, whichever of the two is smaller, and leaves the anchor.
pub proof fn law_range_symmetry(
    s: SelectionState,
    a: usize,
    b: usize,
    direction: Option<MoveDirection>,
    len: usize,
)
    requires
        s.anchor == Some(a),
    ensures
        ({
            let after = step(
                s,
                SelectionEvent::Move { index: b, extend: true, additive: false, direction },
                len,
            );
            &&& forall|i: usize|
                after.selected.contains(i) <==> (if a <= b {
                    a <= i <= b
                } else {
                    b <= i <= a
                })
            &&& after.selected == span(b, a)
            &&& after.cursor == b
            &&& after.anchor == Some(a)
        }),
{
    assert(span(a, b) =~= span(b, a));
}

/// Direction reversal: an additive extending move in another direction
/// than the last one starts its range at the cursor, not at the old anchor,
/// and keeps everything that was selected.
pub proof fn law_additive_reversal(
    s: SelectionState,
    index: usize,
    direction: Option<MoveDirection>,
    len: usize,
)
    requires
        direction != s.last_direction,
    ensures
        ({
            let after = step(
                s,
                SelectionEvent::Move { index, extend: true, additive: true, direction },
                len,
            );
            &&& after.anchor == Some(s.cursor)
            &&& after.selected == s.selected.union(span(s.cursor, index))
            &&& after.cursor == index
            &&& after.last_direction == direction
        }),
{
}

} // verus!

//! Controller of one pane. It owns the directory cursor, the observed
//! directory, the selection model, the listing with its breadcrumbs and
//! the inbound channel, and keeps them consistent under the events.
//!
//! The controller does not touch the filesystem. For an event that needs
//! a fresh listing the caller reads the directory that `listing_target`
//! names and hands the read in with the event; for a move the caller
//! performs the requests and hands in the read of the directory afterwards.

use vstd::prelude::*;
use crate::event_queue::EventQueue;
use crate::model::{
    FsError,
    Item,
    ItemView,
    NavigatedEvent,
    PaneControlsEvent,
    clone_items,
    clone_strings,
    item_views,
    targets_row,
    texts,
};
use crate::navigator::{breadcrumbs_of, listing, up_target, DirRead, Navigator};
use crate::paths::path_join;
use crate::selection::{
    SelectionEvent,
    SelectionModel,
    SelectionState,
    fresh,
    initial,
    max_of,
    selected_rows,
    step,
    valid,
};
use crate::view::FilePaneView;
use crate::watcher::{observes, retarget, switch_to, FileWatcher, SwitchView, WatchSwitch};

verus! {

/// How many events the inbound channel of a pane holds.
pub const INBOX_CAPACITY: usize = 1;

/// One file to move: the item at `index` of the listing, from `src` to
/// `dst`.
#[derive(Debug, PartialEq, Eq)]
pub struct MoveRequest {
    pub index: usize,
    pub src: String,
    pub dst: String,
}

/// Mathematical content of a [`MoveRequest`].
pub struct MoveRequestView {
    pub index: usize,
    pub src: Seq<char>,
    pub dst: Seq<char>,
}

impl View for MoveRequest {
    type V = MoveRequestView;

    open spec fn view(&self) -> MoveRequestView {
        MoveRequestView { index: self.index, src: self.src@, dst: self.dst@ }
    }
}

/// Mathematical state of a pane.
pub struct PaneState {
    /// The directory shown.
    pub path: Seq<char>,
    /// The directory observed for changes.
    pub watched: Seq<char>,
    /// The listing.
    pub items: Seq<ItemView>,
    /// Breadcrumbs of the directory shown.
    pub breadcrumbs: Seq<Seq<char>>,
    /// The selection model.
    pub selection: SelectionState,
    /// Events that wait in the inbound channel, oldest first.
    pub inbox: Seq<NavigatedEvent>,
    /// Capacity of the inbound channel.
    pub inbox_limit: nat,
}

/// The invariants of a pane: the observed directory is the one shown, the
/// breadcrumbs are those of the directory shown, cursor, anchor and
/// selection point into the listing, and the inbound channel is within
/// its capacity.
pub open spec fn coherent(p: PaneState) -> bool {
    &&& observes(p.watched, p.path)
    &&& p.breadcrumbs == breadcrumbs_of(p.path)
    &&& p.items.len() <= usize::MAX
    &&& valid(p.selection, p.items.len() as usize)
    &&& p.inbox.len() <= p.inbox_limit
}

/// A pane that has just been opened on `path` with the listing `items`.
pub open spec fn started(path: Seq<char>, items: Seq<ItemView>) -> PaneState {
    PaneState {
        path,
        watched: path,
        items,
        breadcrumbs: breadcrumbs_of(path),
        selection: fresh(items.len() as usize),
        inbox: Seq::empty(),
        inbox_limit: INBOX_CAPACITY as nat,
    }
}

/// The directory that has to be read before `event` can be applied: the
/// one to enter, the parent, or the current one for a refresh. A movement
/// of the cursor needs none.
pub open spec fn listing_target(p: PaneState, event: NavigatedEvent) -> Option<Seq<char>> {
    match event {
        NavigatedEvent::DirectoryOpened(path) => Some(path@),
        NavigatedEvent::TraversedUp => Some(up_target(p.path)),
        NavigatedEvent::SelectionMoved { .. } => None,
        NavigatedEvent::FilesUpdated => Some(p.path),
    }
}

/// The pane after it has entered `path`, whose listing is `items`: the
/// observed directory follows, the first item is selected.
pub open spec fn entered(p: PaneState, path: Seq<char>, items: Seq<ItemView>) -> PaneState {
    PaneState {
        path,
        watched: retarget(p.watched, path),
        items,
        breadcrumbs: breadcrumbs_of(path),
        selection: fresh(items.len() as usize),
        ..p
    }
}

/// The pane after its directory has been listed anew as `items`: the
/// first item is selected, or nothing where the directory is empty.
pub open spec fn refreshed(p: PaneState, items: Seq<ItemView>) -> PaneState {
    PaneState {
        items,
        breadcrumbs: breadcrumbs_of(p.path),
        selection: fresh(items.len() as usize),
        ..p
    }
}

/// The pane after `event`, given what reading the event's directory gave.
/// A listing that fails leaves the pane as it was.
pub open spec fn after_event(p: PaneState, event: NavigatedEvent, read: DirRead) -> PaneState {
    match event {
        NavigatedEvent::SelectionMoved { index, selection, additive, direction } => PaneState {
            selection: step(
                p.selection,
                SelectionEvent::Move { index, extend: selection, additive, direction },
                p.items.len() as usize,
            ),
            ..p
        },
        NavigatedEvent::FilesUpdated => match listing(p.path, read) {
            Ok(items) => refreshed(p, items),
            Err(_) => p,
        },
        _ => {
            let path = listing_target(p, event)->0;
            match listing(path, read) {
                Ok(items) => entered(p, path, items),
                Err(_) => p,
            }
        },
    }
}

/// What `event` comes to for the caller: the error of the listing, or the
/// switch of the observed directory that is left to carry out.
pub open spec fn event_outcome(p: PaneState, event: NavigatedEvent, read: DirRead) -> Result<
    Option<SwitchView>,
    FsError,
> {
    match listing_target(p, event) {
        None => Ok(None),
        Some(path) => match listing(path, read) {
            Err(e) => Err(e),
            Ok(_) => if event is FilesUpdated {
                Ok(None)
            } else {
                Ok(switch_to(p.watched, path))
            },
        },
    }
}

/// The event moves the cursor to a row of the listing, or moves no cursor.
pub open spec fn event_in_range(p: PaneState, event: NavigatedEvent) -> bool {
    targets_row(event, p.items.len())
}

/// The request to move the item at `index` into the directory `dest`.
pub open spec fn request_of(p: PaneState, dest: Seq<char>, index: usize) -> MoveRequestView {
    MoveRequestView {
        index,
        src: path_join(p.path, p.items[index as int].name),
        dst: path_join(dest, p.items[index as int].name),
    }
}

/// The requests of a move of the selection into `dest`: one for each
/// selected item, in the order of the listing.
pub open spec fn requests_of(p: PaneState, dest: Seq<char>) -> Seq<MoveRequestView> {
    selected_rows(p.selection.selected, p.items.len()).map_values(
        |index: usize| request_of(p, dest, index),
    )
}

/// Where the cursor goes after a move: to the row behind the largest
/// index that was selected, or to the last row where there is none behind
/// it; to the first row where nothing was selected.
pub open spec fn cursor_after_move(max_before: Option<usize>, len: int) -> int {
    let next = match max_before {
        Some(m) => m + 1,
        None => 0,
    };
    if next <= len - 1 {
        next
    } else {
        len - 1
    }
}

/// The pane after a move, given the read of its directory after the
/// batch.
pub open spec fn after_move(p: PaneState, read: DirRead) -> PaneState {
    match listing(p.path, read) {
        Err(_) => p,
        Ok(items) => PaneState {
            items,
            breadcrumbs: breadcrumbs_of(p.path),
            selection: if items.len() > 0 {
                step(
                    p.selection,
                    SelectionEvent::SelectSingle {
                        index: cursor_after_move(
                            max_of(p.selection.selected),
                            items.len() as int,
                        ) as usize,
                    },
                    items.len() as usize,
                )
            } else {
                initial()
            },
            ..p
        },
    }
}

/// What a channel with `limit` places holds after `events` have been
/// sent to it in order without waiting: those that found room.
pub open spec fn accepted(inbox: Seq<NavigatedEvent>, limit: nat, events: Seq<NavigatedEvent>) -> Seq<
    NavigatedEvent,
> {
    let room = if inbox.len() >= limit {
        0
    } else if events.len() <= limit - inbox.len() {
        events.len() as int
    } else {
        limit - inbox.len()
    };
    inbox + events.take(room)
}

/// Controller of one pane.
#[derive(Debug, PartialEq, Eq)]
pub struct FilePaneContainer {
    navigator: Navigator,
    watcher: FileWatcher,
    selection: SelectionModel,
    items: Vec<Item>,
    breadcrumbs: Vec<String>,
    receiver: EventQueue<NavigatedEvent>,
}

impl View for FilePaneContainer {
    type V = PaneState;

    closed spec fn view(&self) -> PaneState {
        PaneState {
            path: self.navigator@,
            watched: self.watcher@,
            items: item_views(self.items@),
            breadcrumbs: texts(self.breadcrumbs@),
            selection: self.selection@,
            inbox: self.receiver@,
            inbox_limit: self.receiver.limit(),
        }
    }
}

impl FilePaneContainer {
    /// The items of the listing.
    pub closed spec fn listed(&self) -> Seq<Item> {
        self.items@
    }

    /// A pane on the navigator's directory, from what reading that
    /// directory gave. A listing that fails gives no pane.
    pub fn new(navigator: Navigator, read: DirRead) -> (pane: Result<Self, FsError>)
        ensures
            match listing(navigator@, read) {
                Ok(items) => pane is Ok && pane->Ok_0@ == started(navigator@, items) && coherent(
                    pane->Ok_0@,
                ),
                Err(e) => pane is Err && pane->Err_0 == e,
            },
    {
        let items = match navigator.list_contents(read) {
            Ok(items) => items,
            Err(e) => {
                return Err(e);
            },
        };
        let breadcrumbs = navigator.breadcrumbs();
        let watcher = FileWatcher::new(navigator.current_path());
        let selection = SelectionModel::fresh(items.len());
        let receiver = EventQueue::new(INBOX_CAPACITY);
        Ok(FilePaneContainer { navigator, watcher, selection, items, breadcrumbs, receiver })
    }

    /// The directory cursor.
    pub fn navigator(&self) -> (navigator: &Navigator)
        ensures
            navigator@ == self@.path,
    {
        &self.navigator
    }

    /// The observed directory.
    pub fn watcher(&self) -> (watcher: &FileWatcher)
        ensures
            watcher@ == self@.watched,
    {
        &self.watcher
    }

    /// The selection model.
    pub fn selection(&self) -> (selection: &SelectionModel)
        ensures
            selection@ == self@.selection,
    {
        &self.selection
    }

    /// The listing.
    pub fn items(&self) -> (items: &Vec<Item>)
        ensures
            items@ == self.listed(),
            item_views(items@) == self@.items,
    {
        &self.items
    }

    /// The picture of the pane for one frame.
    pub fn view_for(&self, focused: bool) -> (picture: FilePaneView)
        ensures
            picture.items@ == self.listed(),
            item_views(picture.items@) == self@.items,
            texts(picture.breadcrumbs@) == self@.breadcrumbs,
            picture.cursor_index == self@.selection.cursor,
            picture.selected_indices@ == self@.selection.selected,
            picture.focused == focused,
    {
        FilePaneView {
            items: clone_items(&self.items),
            breadcrumbs: clone_strings(&self.breadcrumbs),
            cursor_index: self.selection.cursor_index(),
            selected_indices: self.selection.get_selected_indices().clone(),
            focused,
        }
    }

    /// Sends `event` to the pane without waiting. An event that finds the
    /// channel full comes back.
    pub fn post(&mut self, event: NavigatedEvent) -> (result: Result<(), NavigatedEvent>)
        ensures
            final(self)@ == (PaneState {
                inbox: accepted(old(self)@.inbox, old(self)@.inbox_limit, seq![event]),
                ..old(self)@
            }),
            final(self).listed() == old(self).listed(),
            coherent(old(self)@) ==> coherent(final(self)@),
            old(self)@.inbox.len() < old(self)@.inbox_limit ==> result is Ok,
            old(self)@.inbox.len() >= old(self)@.inbox_limit ==> result == Err::<
                (),
                NavigatedEvent,
            >(event),
    {
        let result = self.receiver.try_send(event);
        proof {
            let before = old(self)@;
            if before.inbox.len() < before.inbox_limit {
                assert(seq![event].take(1) =~= seq![event]);
                assert(before.inbox + seq![event] =~= before.inbox.push(event));
            } else {
                assert(before.inbox + seq![event].take(0) =~= before.inbox);
            }
        }
        result
    }

    /// Sends the intents of one frame to the pane, in order and without
    /// waiting. Those that find the channel full are dropped.
    pub fn submit(&mut self, events: Vec<NavigatedEvent>)
        ensures
            final(self)@ == (PaneState {
                inbox: accepted(old(self)@.inbox, old(self)@.inbox_limit, events@),
                ..old(self)@
            }),
            final(self).listed() == old(self).listed(),
            coherent(old(self)@) ==> coherent(final(self)@),
    {
        let mut i: usize = 0;
        while i < events.len()
            invariant
                i <= events@.len(),
                self@ == (PaneState {
                    inbox: accepted(old(self)@.inbox, old(self)@.inbox_limit, events@.take(i as int)),
                    ..old(self)@
                }),
                self.listed() == old(self).listed(),
            decreases events@.len() - i,
        {
            let ghost sent = events@.take(i as int);
            let ghost inbox = self@.inbox;
            let _ = self.receiver.try_send(events[i].clone());
            proof {
                let before = old(self)@;
                let more = events@.take(i + 1);
                assert(more =~= sent.push(events@[i as int]));
                if inbox.len() < before.inbox_limit {
                    assert(sent.take(sent.len() as int) =~= sent);
                    assert(more.take(more.len() as int) =~= more);
                    assert(inbox.push(events@[i as int]) =~= accepted(
                        before.inbox,
                        before.inbox_limit,
                        more,
                    ));
                } else {
                    assert(inbox =~= accepted(before.inbox, before.inbox_limit, more)) by {
                        if before.inbox.len() < before.inbox_limit {
                            let room = before.inbox_limit - before.inbox.len();
                            assert(sent.len() >= room);
                            assert(more.take(room) =~= sent.take(room));
                        }
                    }
                }
            }
            i = i + 1;
        }
        proof {
            assert(events@.take(events@.len() as int) =~= events@);
        }
    }

    /// Takes the oldest event from the inbound channel.
    pub fn next_event(&mut self) -> (event: Option<NavigatedEvent>)
        ensures
            final(self).listed() == old(self).listed(),
            coherent(old(self)@) ==> coherent(final(self)@),
            old(self)@.inbox.len() > 0 ==> event == Some(old(self)@.inbox[0]) && final(self)@ == (
            PaneState { inbox: old(self)@.inbox.drop_first(), ..old(self)@ }),
            old(self)@.inbox.len() == 0 ==> event is None && final(self)@ == old(self)@,
    {
        self.receiver.try_recv()
    }

    /// The directory that has to be read before `event` can be applied.
    pub fn listing_target(&self, event: &NavigatedEvent) -> (path: Option<String>)
        ensures
            match listing_target(self@, *event) {
                Some(text) => path is Some && path->0@ == text,
                None => path is None,
            },
    {
        match event {
            NavigatedEvent::DirectoryOpened(path) => Some(path.clone()),
            NavigatedEvent::TraversedUp => {
                let mut up = self.navigator.clone();
                up.go_up();
                Some(up.current_path().clone())
            },
            NavigatedEvent::SelectionMoved { .. } => None,
            NavigatedEvent::FilesUpdated => Some(self.navigator.current_path().clone()),
        }
    }

    /// Enters the directory at `path` if its listing can be built.
    fn enter(&mut self, path: &String, read: DirRead) -> (result: Result<
        Option<WatchSwitch>,
        FsError,
    >)
        ensures
            match listing(path@, read) {
                Ok(items) => final(self)@ == entered(old(self)@, path@, items) && result is Ok && (
                match switch_to(old(self)@.watched, path@) {
                    Some(view) => result->Ok_0 is Some && result->Ok_0->0@ == view,
                    None => result->Ok_0 is None,
                }),
                Err(e) => final(self)@ == old(self)@ && final(self).listed() == old(self).listed()
                    && result is Err && result->Err_0 == e,
            },
    {
        let target = Navigator::new(path);
        let items = match target.list_contents(read) {
            Ok(items) => items,
            Err(e) => {
                return Err(e);
            },
        };
        self.breadcrumbs = target.breadcrumbs();
        let switch = self.watcher.watch_path(target.current_path());
        self.navigator = target;
        self.selection = SelectionModel::fresh(items.len());
        self.items = items;
        Ok(switch)
    }

    /// Lists the directory anew and selects its first item. A listing
    /// that fails leaves the pane as it was.
    pub fn refresh_items(&mut self, read: DirRead) -> (result: Result<(), FsError>)
        ensures
            match listing(old(self)@.path, read) {
                Ok(items) => final(self)@ == refreshed(old(self)@, items) && result is Ok,
                Err(e) => final(self)@ == old(self)@ && final(self).listed() == old(self).listed()
                    && result == Err::<(), FsError>(e),
            },
            coherent(old(self)@) ==> coherent(final(self)@),
    {
        let items = match self.navigator.list_contents(read) {
            Ok(items) => items,
            Err(e) => {
                return Err(e);
            },
        };
        self.breadcrumbs = self.navigator.breadcrumbs();
        self.selection = SelectionModel::fresh(items.len());
        self.items = items;
        Ok(())
    }

    /// Applies one event. `read` is what reading the directory named by
    /// `listing_target` gave; a movement of the cursor does not look at
    /// it. The result is the error of a listing that failed, or the switch
    /// of the observed directory that the caller has to carry out.
    pub fn handle_navigation_event(&mut self, event: &NavigatedEvent, read: DirRead) -> (result:
        Result<Option<WatchSwitch>, FsError>)
        ensures
            final(self)@ == after_event(old(self)@, *event, read),
            match event_outcome(old(self)@, *event, read) {
                Ok(Some(view)) => result is Ok && result->Ok_0 is Some && result->Ok_0->0@ == view,
                Ok(None) => result is Ok && result->Ok_0 is None,
                Err(e) => result is Err && result->Err_0 == e,
            },
            coherent(old(self)@) && event_in_range(old(self)@, *event) ==> coherent(final(self)@),
    {
        proof {
            if coherent(self@) && event_in_range(self@, *event) {
                law_event_keeps_coherent(self@, *event, read);
            }
        }
        match event {
            NavigatedEvent::DirectoryOpened(path) => self.enter(path, read),
            NavigatedEvent::TraversedUp => {
                let mut up = self.navigator.clone();
                up.go_up();
                self.enter(up.current_path(), read)
            },
            NavigatedEvent::SelectionMoved { index, selection, additive, direction } => {
                self.selection.handle_selection_moved(*index, *selection, *additive, *direction);
                Ok(None)
            },
            NavigatedEvent::FilesUpdated => match self.refresh_items(read) {
                Ok(_) => Ok(None),
                Err(e) => Err(e),
            },
        }
    }

    /// The requests of a move of the selection into the directory
    /// `destination`: one for each selected item, in the order of the
    /// listing. A selected index beyond the listing asks for nothing.
    pub fn move_requests(&self, destination: &String) -> (requests: Vec<MoveRequest>)
        ensures
            requests@.map_values(|r: MoveRequest| r@) == requests_of(self@, destination@),
    {
        let mut requests: Vec<MoveRequest> = Vec::new();
        let mut i: usize = 0;
        while i < self.items.len()
            invariant
                i <= self.items@.len(),
                requests@.map_values(|r: MoveRequest| r@) == selected_rows(
                    self@.selection.selected,
                    i as nat,
                ).map_values(|index: usize| request_of(self@, destination@, index)),
            decreases self.items@.len() - i,
        {
            let ghost rows = selected_rows(self@.selection.selected, i as nat);
            let ghost before = requests@;
            if self.selection.is_selected(i) {
                let item = &self.items[i];
                let src = crate::paths::join(self.navigator.current_path(), &item.name);
                let dst = crate::paths::join(destination, &item.name);
                requests.push(MoveRequest { index: i, src, dst });
                proof {
                    assert(self@.items[i as int] == self.items@[i as int]@);
                    assert(requests@.map_values(|r: MoveRequest| r@) =~= before.map_values(
                        |r: MoveRequest| r@,
                    ).push(request_of(self@, destination@, i)));
                    assert(rows.push(i).map_values(
                        |index: usize| request_of(self@, destination@, index),
                    ) =~= rows.map_values(
                        |index: usize| request_of(self@, destination@, index),
                    ).push(request_of(self@, destination@, i)));
                }
            }
            i = i + 1;
        }
        requests
    }

    /// Reacts to a request from the controls: for `MoveSelected`, the
    /// requests of the move into `destination`.
    pub fn handle_pane_controls_event(&self, event: &PaneControlsEvent, destination: &String) -> (
    requests: Vec<MoveRequest>)
        ensures
            requests@.map_values(|r: MoveRequest| r@) == requests_of(self@, destination@),
    {
        match event {
            PaneControlsEvent::MoveSelected => self.move_requests(destination),
        }
    }

    /// Ends a move: takes the listing of the directory after the batch and
    /// puts the cursor behind what was selected. A listing that fails
    /// leaves the pane as it was.
    pub fn move_selected(&mut self, read: DirRead) -> (result: Result<(), FsError>)
        ensures
            final(self)@ == after_move(old(self)@, read),
            match listing(old(self)@.path, read) {
                Ok(_) => result is Ok,
                Err(e) => result == Err::<(), FsError>(e),
            },
            coherent(old(self)@) ==> coherent(final(self)@),
    {
        let items = match self.navigator.list_contents(read) {
            Ok(items) => items,
            Err(e) => {
                return Err(e);
            },
        };
        let max_before = self.selection.max_selected();
        self.breadcrumbs = self.navigator.breadcrumbs();
        let count = items.len();
        if count > 0 {
            let index = match max_before {
                Some(m) => if m >= count - 1 {
                    count - 1
                } else {
                    m + 1
                },
                None => 0,
            };
            self.selection.apply(SelectionEvent::SelectSingle { index }, count);
        } else {
            self.selection = SelectionModel::new();
        }
        self.items = items;
        Ok(())
    }
}

/// An event keeps the invariants of a pane, whether its listing succeeds
/// or fails, provided that a movement of the cursor stays in the listing.
/// After `DirectoryOpened` and `TraversedUp` in particular the observed
/// directory is the directory shown, and the breadcrumbs are those of the
/// directory shown.
pub proof fn law_event_keeps_coherent(p: PaneState, event: NavigatedEvent, read: DirRead)
    requires
        coherent(p),
        event_in_range(p, event),
    ensures
        coherent(after_event(p, event, read)),
{
    match event {
        NavigatedEvent::SelectionMoved { index, selection, additive, direction } => {
            crate::selection::law_step_keeps_valid(
                p.selection,
                SelectionEvent::Move { index, extend: selection, additive, direction },
                p.items.len() as usize,
            );
        },
        NavigatedEvent::FilesUpdated => {
            lemma_listing_fits(p.path, read);
        },
        _ => {
            lemma_listing_fits(listing_target(p, event)->0, read);
        },
    }
}

/// A channel within its capacity stays within it, whatever is sent.
pub proof fn law_accepted_fits(inbox: Seq<NavigatedEvent>, limit: nat, events: Seq<NavigatedEvent>)
    requires
        inbox.len() <= limit,
    ensures
        accepted(inbox, limit, events).len() <= limit,
        inbox.is_prefix_of(accepted(inbox, limit, events)),
{
}

/// A listing has as many items as the read has entries.
pub proof fn lemma_listing_fits(dir: Seq<char>, read: DirRead)
    ensures
        listing(dir, read) matches Ok(items) ==> items.len() <= usize::MAX,
{
    if let Ok(entries) = read {
        assert(entries@.len() == entries.len());
    }
}

/// A move keeps the invariants of a pane: afterwards the cursor is the
/// only selected row, and it lies in the new listing.
pub proof fn law_move_keeps_coherent(p: PaneState, read: DirRead)
    requires
        coherent(p),
    ensures
        coherent(after_move(p, read)),
        listing(p.path, read) matches Ok(items) ==> items.len() > 0 ==> {
            &&& after_move(p, read).selection.cursor == cursor_after_move(
                max_of(p.selection.selected),
                items.len() as int,
            )
            &&& after_move(p, read).selection.selected == set![
                after_move(p, read).selection.cursor,
            ]
        },
{
    lemma_listing_fits(p.path, read);
}

} // verus!

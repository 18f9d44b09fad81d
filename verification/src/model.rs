//! Value types shared by the panes.

use vstd::prelude::*;

verus! {

/// Kind of a directory entry.
#[derive(Clone, Copy, Debug, PartialEq, Eq, Structural)]
pub enum ItemType {
    File,
    Directory,
}

/// Direction of a single-row cursor movement.
#[derive(Clone, Copy, Debug, PartialEq, Eq, Structural)]
pub enum MoveDirection {
    Up,
    Down,
}

/// Why a filesystem operation failed.
#[derive(Clone, Copy, Debug, PartialEq, Eq, Structural)]
pub enum FsError {
    /// A path does not exist.
    PathNotFound,
    /// The operation was rejected for want of permission.
    PermissionDenied,
    /// A rename would cross devices.
    CrossDeviceMove,
    /// Any other I/O failure.
    IoOther,
}

/// Last-modified instant of an entry as local wall-clock time: seconds and
/// nanoseconds since the Unix epoch, and the offset of the local zone from
/// UTC, in seconds, that was in force at that instant.
#[derive(Clone, Copy, Debug, PartialEq, Eq, Structural)]
pub struct Timestamp {
    pub secs: i64,
    pub nanos: u32,
    pub utc_offset_secs: i32,
}

/// One directory entry. Items are values: a listing builds them and nothing
/// changes them afterwards.
#[derive(Debug, PartialEq, Eq)]
pub struct Item {
    pub name: String,
    pub path: String,
    pub item_type: ItemType,
    pub size: u64,
    pub modified: Timestamp,
}

/// Mathematical content of an [`Item`].
pub struct ItemView {
    pub name: Seq<char>,
    pub path: Seq<char>,
    pub item_type: ItemType,
    pub size: u64,
    pub modified: Timestamp,
}

impl View for Item {
    type V = ItemView;

    open spec fn view(&self) -> ItemView {
        ItemView {
            name: self.name@,
            path: self.path@,
            item_type: self.item_type,
            size: self.size,
            modified: self.modified,
        }
    }
}

impl DeepView for Item {
    type V = ItemView;

    open spec fn deep_view(&self) -> ItemView {
        self@
    }
}

impl Clone for Item {
    fn clone(&self) -> (copy: Self)
        ensures
            copy == *self,
    {
        Item {
            name: self.name.clone(),
            path: self.path.clone(),
            item_type: self.item_type,
            size: self.size,
            modified: self.modified,
        }
    }
}

/// Copies a listing, item by item.
pub fn clone_items(items: &Vec<Item>) -> (copy: Vec<Item>)
    ensures
        copy@ == items@,
{
    let mut copy: Vec<Item> = Vec::new();
    let mut i: usize = 0;
    while i < items.len()
        invariant
            i <= items.len(),
            copy@ == items@.take(i as int),
        decreases items.len() - i,
    {
        copy.push(items[i].clone());
        assert(copy@ == items@.take(i + 1));
        i = i + 1;
    }
    assert(items@.take(items.len() as int) == items@);
    copy
}

/// Copies a list of strings.
pub fn clone_strings(strings: &Vec<String>) -> (copy: Vec<String>)
    ensures
        copy@ == strings@,
{
    let mut copy: Vec<String> = Vec::new();
    let mut i: usize = 0;
    while i < strings.len()
        invariant
            i <= strings.len(),
            copy@ == strings@.take(i as int),
        decreases strings.len() - i,
    {
        copy.push(strings[i].clone());
        assert(copy@ == strings@.take(i + 1));
        i = i + 1;
    }
    assert(strings@.take(strings.len() as int) == strings@);
    copy
}

/// Views of a list of strings, in order.
pub open spec fn texts(strings: Seq<String>) -> Seq<Seq<char>> {
    strings.map_values(|s: String| s@)
}

/// Views of a listing, in order.
pub open spec fn item_views(items: Seq<Item>) -> Seq<ItemView> {
    items.map_values(|item: Item| item@)
}

/// An intent that reaches a pane through its inbound channel.
#[derive(Debug, PartialEq, Eq)]
pub enum NavigatedEvent {
    /// Enter the directory at this path.
    DirectoryOpened(String),
    /// Go to the parent directory.
    TraversedUp,
    /// Move the cursor to `index`; `selection` extends a range from the
    /// anchor, `additive` keeps what is already selected.
    SelectionMoved { index: usize, selection: bool, additive: bool, direction: Option<MoveDirection> },
    /// The watched directory changed on disk.
    FilesUpdated,
}

/// The event moves the cursor to a row of a listing of `len` items, or
/// moves no cursor.
pub open spec fn targets_row(event: NavigatedEvent, len: nat) -> bool {
    match event {
        NavigatedEvent::SelectionMoved { index, .. } => index < len,
        _ => true,
    }
}

impl Clone for NavigatedEvent {
    fn clone(&self) -> (copy: Self)
        ensures
            copy == *self,
    {
        match self {
            NavigatedEvent::DirectoryOpened(path) => NavigatedEvent::DirectoryOpened(path.clone()),
            NavigatedEvent::TraversedUp => NavigatedEvent::TraversedUp,
            NavigatedEvent::SelectionMoved { index, selection, additive, direction } => {
                NavigatedEvent::SelectionMoved {
                    index: *index,
                    selection: *selection,
                    additive: *additive,
                    direction: *direction,
                }
            },
            NavigatedEvent::FilesUpdated => NavigatedEvent::FilesUpdated,
        }
    }
}

/// A request from the controls strip below the panes.
#[derive(Clone, Copy, Debug, PartialEq, Eq, Structural)]
pub enum PaneControlsEvent {
    /// Move the focused pane's selection into the other pane's directory.
    MoveSelected,
}

/// Initial directories of the two panes.
#[derive(Debug, PartialEq, Eq)]
pub struct Params {
    pub left_path: String,
    pub right_path: String,
}

impl Params {
    /// Resolves the initial directories from what the command line gave:
    /// the left pane opens `left`, or `home` without it; the right pane
    /// opens `right`, or what `left` gave, or `home`.
    pub fn new(left: Option<String>, right: Option<String>, home: String) -> (params: Params)
        ensures
            params.left_path@ == (match left {
                Some(l) => l@,
                None => home@,
            }),
            params.right_path@ == (match right {
                Some(r) => r@,
                None => match left {
                    Some(l) => l@,
                    None => home@,
                },
            }),
    {
        let left_path = match &left {
            Some(l) => l.clone(),
            None => home.clone(),
        };
        let right_path = match right {
            Some(r) => r,
            None => match left {
                Some(l) => l,
                None => home,
            },
        };
        Params { left_path, right_path }
    }
}

} // verus!

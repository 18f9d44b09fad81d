//! Directory cursor of one pane: one current path, traversal up and into,
//! breadcrumbs, and the listing built from what a directory read returned.

use vstd::prelude::*;
use crate::model::{FsError, Item, ItemType, ItemView, Timestamp, item_views, texts};
use crate::paths::{path_components, path_join, path_parent, root_text};

verus! {

/// What reading one directory entry and its metadata gave.
#[derive(Debug, PartialEq, Eq)]
pub struct RawEntry {
    /// File name, as the filesystem reports it.
    pub name: String,
    /// Whether the metadata says directory.
    pub is_dir: bool,
    /// Size in bytes.
    pub size: u64,
    /// Last modification.
    pub modified: Timestamp,
}

/// Outcome of reading one entry.
pub type EntryRead = Result<RawEntry, FsError>;

/// Outcome of reading a directory: the enumeration failed as a whole, or it
/// gave the entries in the filesystem's order, each read or failed.
pub type DirRead = Result<Vec<EntryRead>, FsError>;

/// The directory that `go_up` leads to from `path`: its parent, or the root
/// where it has none.
pub open spec fn up_target(path: Seq<char>) -> Seq<char> {
    match path_parent(path) {
        Some(parent) => parent,
        None => root_text(),
    }
}

/// Breadcrumbs of `path`: its components without the first one, which for
/// an absolute path is the root.
pub open spec fn breadcrumbs_of(path: Seq<char>) -> Seq<Seq<char>> {
    let parts = path_components(path);
    if parts.len() == 0 {
        parts
    } else {
        parts.subrange(1, parts.len() as int)
    }
}

/// The item that stands for `entry` in a listing of the directory `dir`.
pub open spec fn item_of(dir: Seq<char>, entry: RawEntry) -> ItemView {
    ItemView {
        name: entry.name@,
        path: path_join(dir, entry.name@),
        item_type: if entry.is_dir {
            ItemType::Directory
        } else {
            ItemType::File
        },
        size: entry.size,
        modified: entry.modified,
    }
}

/// Every entry was read.
pub open spec fn all_read(entries: Seq<EntryRead>) -> bool {
    forall|k: int| 0 <= k < entries.len() ==> (#[trigger] entries[k]) is Ok
}

/// Position of the first entry that failed.
pub open spec fn first_failed(entries: Seq<EntryRead>) -> int {
    choose|k: int|
        0 <= k < entries.len() && (#[trigger] entries[k]) is Err && forall|j: int|
            0 <= j < k ==> (#[trigger] entries[j]) is Ok
}

/// The listing of `dir` that a read yields: the read's own error, else the
/// error of the first entry that failed, else one item per entry in the
/// order of the read.
pub open spec fn listing(dir: Seq<char>, read: DirRead) -> Result<Seq<ItemView>, FsError> {
    match read {
        Err(e) => Err(e),
        Ok(entries) => if all_read(entries@) {
            Ok(Seq::new(entries@.len(), |k: int| item_of(dir, entries@[k]->Ok_0)))
        } else {
            Err(entries@[first_failed(entries@)]->Err_0)
        },
    }
}

/// Holds the directory that a pane shows. Created with an initial path and
/// changed only by `open_dir` and `go_up`.
#[derive(Debug, PartialEq, Eq)]
pub struct Navigator {
    current_path: String,
}

impl View for Navigator {
    type V = Seq<char>;

    /// Text of the current path.
    closed spec fn view(&self) -> Seq<char> {
        self.current_path@
    }
}

impl Clone for Navigator {
    fn clone(&self) -> (copy: Self)
        ensures
            copy@ == self@,
    {
        Navigator { current_path: self.current_path.clone() }
    }
}

impl Navigator {
    /// A navigator at `initial_path`, stored verbatim.
    pub fn new(initial_path: &String) -> (nav: Self)
        ensures
            nav@ == initial_path@,
    {
        Navigator { current_path: initial_path.clone() }
    }

    /// The current path.
    pub fn current_path(&self) -> (path: &String)
        ensures
            path@ == self@,
    {
        &self.current_path
    }

    /// Replaces the current path with `path`.
    pub fn open_dir(&mut self, path: &String)
        ensures
            final(self)@ == path@,
    {
        self.current_path = path.clone();
    }

    /// Replaces the current path with its parent. A path without a parent
    /// leads to the root, so the root stays where it is.
    pub fn go_up(&mut self)
        ensures
            final(self)@ == up_target(old(self)@),
    {
        match crate::paths::parent(&self.current_path) {
            Some(parent) => {
                self.current_path = parent;
            },
            None => {
                self.current_path = crate::paths::root();
            },
        }
    }

    /// Path components from the root to the current directory, the root
    /// itself left out.
    pub fn breadcrumbs(&self) -> (crumbs: Vec<String>)
        ensures
            texts(crumbs@) == breadcrumbs_of(self@),
    {
        let mut parts = crate::paths::components(&self.current_path);
        if parts.len() > 0 {
            let ghost before = parts@;
            parts.remove(0);
            assert(texts(parts@) =~= texts(before).subrange(1, before.len() as int));
        }
        parts
    }

    /// Builds the listing of the current directory from what reading it
    /// gave. An enumeration error comes back as it is; otherwise the first
    /// entry that could not be read fails the whole listing; otherwise each
    /// entry becomes one item, in the order of the read.
    pub fn list_contents(&self, read: DirRead) -> (result: Result<Vec<Item>, FsError>)
        ensures
            match listing(self@, read) {
                Ok(views) => result is Ok && item_views(result->Ok_0@) == views,
                Err(e) => result == Err::<Vec<Item>, FsError>(e),
            },
    {
        let entries = match &read {
            Err(e) => {
                return Err(*e);
            },
            Ok(entries) => entries,
        };
        let mut items: Vec<Item> = Vec::new();
        let mut k: usize = 0;
        while k < entries.len()
            invariant
                read == Ok::<Vec<EntryRead>, FsError>(*entries),
                k <= entries@.len(),
                items@.len() == k,
                forall|j: int| 0 <= j < k ==> (#[trigger] entries@[j]) is Ok,
                forall|j: int|
                    0 <= j < k ==> (#[trigger] items@[j])@ == item_of(self@, entries@[j]->Ok_0),
            decreases entries@.len() - k,
        {
            match &entries[k] {
                Err(e) => {
                    assert(!all_read(entries@));
                    assert(first_failed(entries@) == k);
                    return Err(*e);
                },
                Ok(entry) => {
                    let path = crate::paths::join(&self.current_path, &entry.name);
                    let item_type = if entry.is_dir {
                        ItemType::Directory
                    } else {
                        ItemType::File
                    };
                    items.push(
                        Item {
                            name: entry.name.clone(),
                            path,
                            item_type,
                            size: entry.size,
                            modified: entry.modified,
                        },
                    );
                    k = k + 1;
                },
            }
        }
        assert(all_read(entries@));
        assert(item_views(items@) =~= Seq::new(
            entries@.len(),
            |j: int| item_of(self@, entries@[j]->Ok_0),
        ));
        Ok(items)
    }
}

/// Going up from a directory that has a parent arrives at that parent: for
/// a directory `d` whose parent is `p`, a navigator made at `d` stands at
/// `p` after one `go_up`.
pub proof fn law_go_up_reaches_parent(d: Seq<char>, p: Seq<char>)
    requires
        path_parent(d) == Some(p),
    ensures
        up_target(d) == p,
{
}

/// Going up from a path that has no parent arrives at the root.
pub proof fn law_go_up_without_parent(d: Seq<char>)
    requires
        path_parent(d) is None,
    ensures
        up_target(d) == root_text(),
{
}

} // verus!

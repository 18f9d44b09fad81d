//! What the renderer sees of one pane.

use std::collections::BTreeSet;
use vstd::prelude::*;
use crate::model::Item;
use crate::selection::selected_rows;

verus! {

/// Read-only picture of a pane, taken for one frame. The renderer draws it
/// and the keyboard decoder reads it; neither changes the pane through it.
#[derive(Debug, PartialEq, Eq)]
pub struct FilePaneView {
    /// The listing, in the order of the directory read.
    pub items: Vec<Item>,
    /// Path components from the root, the root left out.
    pub breadcrumbs: Vec<String>,
    /// Index of the item under the cursor.
    pub cursor_index: usize,
    /// Indices of the selected items.
    pub selected_indices: BTreeSet<usize>,
    /// Whether this pane has the keyboard.
    pub focused: bool,
}

impl FilePaneView {
    /// Number of items in the listing.
    pub fn item_count(&self) -> (count: usize)
        ensures
            count == self.items@.len(),
    {
        self.items.len()
    }

    /// Index of the item under the cursor.
    pub fn cursor_index(&self) -> (cursor: usize)
        ensures
            cursor == self.cursor_index,
    {
        self.cursor_index
    }

    /// The item under the cursor, if the cursor points at one.
    pub fn get_cursor_item(&self) -> (item: Option<&Item>)
        ensures
            self.cursor_index < self.items@.len() ==> item == Some(
                &self.items@[self.cursor_index as int],
            ),
            self.cursor_index >= self.items@.len() ==> item is None,
    {
        if self.cursor_index < self.items.len() {
            Some(&self.items[self.cursor_index])
        } else {
            None
        }
    }

    /// The selected indices.
    pub fn get_selected_indices(&self) -> (selected: &BTreeSet<usize>)
        ensures
            selected@ == self.selected_indices@,
    {
        &self.selected_indices
    }

    /// Copies of the selected items, in the order of the listing. A
    /// selected index beyond the listing stands for no item.
    pub fn get_selected_items(&self) -> (chosen: Vec<Item>)
        ensures
            chosen@ == selected_rows(self.selected_indices@, self.items@.len()).map_values(
                |i: usize| self.items@[i as int],
            ),
    {
        let mut chosen: Vec<Item> = Vec::new();
        let mut i: usize = 0;
        while i < self.items.len()
            invariant
                i <= self.items@.len(),
                chosen@ == selected_rows(self.selected_indices@, i as nat).map_values(
                    |k: usize| self.items@[k as int],
                ),
            decreases self.items@.len() - i,
        {
            let ghost before = selected_rows(self.selected_indices@, i as nat);
            if self.selected_indices.contains(&i) {
                chosen.push(self.items[i].clone());
                assert(chosen@ =~= before.push(i).map_values(|k: usize| self.items@[k as int]));
            }
            i = i + 1;
        }
        chosen
    }
}

} // verus!

//! A generic paginated cursor over an ordered sequence.
//!
//! Every resource table in the dashboard reuses this one abstraction so that
//! navigation behaves identically across views: the cursor is always a valid
//! index into the current items (or absent when the list is empty), `next`
//! and `previous` wrap around, and replacing the items clamps or resets the
//! cursor so a selection can never dangle.

use vstd::prelude::*;

verus! {

/// An ordered sequence plus a cursor and a scroll offset.
///
/// Invariant ([`Self::well_formed`]): the cursor is present exactly when the
/// list is non-empty, and always indexes an existing item.
#[derive(Debug, Clone, PartialEq, Eq)]
pub struct SelectableList<T> {
    pub items: Vec<T>,
    pub cursor: Option<usize>,
    pub offset: usize,
}

impl<T> SelectableList<T> {
    /// The cursor exists exactly when there are items, and stays in bounds.
    pub open spec fn well_formed(self) -> bool {
        &&& self.cursor is Some <==> self.items@.len() > 0
        &&& (self.cursor matches Some(i) ==> (i as int) < self.items@.len())
    }

    /// An empty list with no selection.
    pub fn new() -> (r: Self)
        ensures
            r.well_formed(),
            r.items@.len() == 0,
            r.cursor is None,
            r.offset == 0,
    {
        SelectableList { items: Vec::new(), cursor: None, offset: 0 }
    }

    /// The list after its contents are replaced wholesale: the scroll offset
    /// resets, a cursor that still points at an existing row is kept, one
    /// past the new end is clamped to the last row, and an absent cursor
    /// lands on the first row of a non-empty list.
    pub open spec fn with_items(self, new_items: Vec<T>) -> Self {
        SelectableList {
            items: new_items,
            cursor: if new_items@.len() == 0 {
                None::<usize>
            } else {
                match self.cursor {
                    Some(i) => if (i as int) < new_items@.len() {
                        Some(i)
                    } else {
                        Some((new_items@.len() - 1) as usize)
                    },
                    None => Some(0usize),
                }
            },
            offset: 0,
        }
    }

    /// Replaces the contents atomically, clamping or resetting the cursor.
    pub fn set_items(&mut self, new_items: Vec<T>)
        ensures
            *final(self) == old(self).with_items(new_items),
            final(self).well_formed(),
    {
        let n = new_items.len();
        self.items = new_items;
        self.offset = 0;
        if n == 0 {
            self.cursor = None;
        } else {
            match self.cursor {
                Some(i) => {
                    if i >= n {
                        self.cursor = Some(n - 1);
                    }
                }
                None => {
                    self.cursor = Some(0);
                }
            }
        }
    }

    /// Moves the cursor one row down, wrapping from the last row to the
    /// first. On an empty list this is a no-op.
    pub fn select_next(&mut self)
        requires
            old(self).well_formed(),
        ensures
            final(self).well_formed(),
            final(self).items == old(self).items,
            final(self).offset == old(self).offset,
            old(self).items@.len() == 0 ==> *final(self) == *old(self),
            old(self).cursor matches Some(i) ==> final(self).cursor == Some(
                if i + 1 < old(self).items@.len() { (i + 1) as usize } else { 0usize },
            ),
    {
        let n = self.items.len();
        match self.cursor {
            Some(i) => {
                if i + 1 < n {
                    self.cursor = Some(i + 1);
                } else {
                    self.cursor = Some(0);
                }
            }
            None => {}
        }
    }

    /// Moves the cursor one row up, wrapping from the first row to the last.
    /// On an empty list this is a no-op.
    pub fn select_previous(&mut self)
        requires
            old(self).well_formed(),
        ensures
            final(self).well_formed(),
            final(self).items == old(self).items,
            final(self).offset == old(self).offset,
            old(self).items@.len() == 0 ==> *final(self) == *old(self),
            old(self).cursor matches Some(i) ==> final(self).cursor == Some(
                if i == 0 { (old(self).items@.len() - 1) as usize } else { (i - 1) as usize },
            ),
    {
        let n = self.items.len();
        match self.cursor {
            Some(i) => {
                if i == 0 {
                    self.cursor = Some(n - 1);
                } else {
                    self.cursor = Some(i - 1);
                }
            }
            None => {}
        }
    }

    /// The item under the cursor, or nothing when the list is empty.
    pub fn selected(&self) -> (r: Option<&T>)
        requires
            self.well_formed(),
        ensures
            r is Some <==> self.items@.len() > 0,
            r matches Some(t) ==> self.cursor matches Some(i) && *t == self.items@[i as int],
    {
        match self.cursor {
            Some(i) => Some(&self.items[i]),
            None => None,
        }
    }

    /// The index of the selected row, if any.
    pub fn selected_index(&self) -> (r: Option<usize>)
        ensures
            r == self.cursor,
    {
        self.cursor
    }

    /// How many items the list currently holds.
    pub fn len(&self) -> (r: usize)
        ensures
            r == self.items@.len(),
    {
        self.items.len()
    }
}

} // verus!

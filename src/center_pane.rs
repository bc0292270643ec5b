//! The tabbed items of the town's center pane, with the one that is active.

use vstd::prelude::*;

verus! {

/// What a center pane holds: its items in tab order and the active position.
pub struct CenterPaneView<T> {
    pub items: Seq<T>,
    pub active_index: int,
}

/// The active position after an item was removed and `len` items are left:
/// kept where it still points at an item, else moved to the last one.
pub open spec fn active_after_close(active: int, len: int) -> int {
    if active >= len && len > 0 {
        len - 1
    } else {
        active
    }
}

/// Holds the tabbed items in the center pane.
pub struct CenterPane<T> {
    /// List of open items
    items: Vec<T>,
    /// Index of the currently active item
    active_index: usize,
}

impl<T> View for CenterPane<T> {
    type V = CenterPaneView<T>;

    closed spec fn view(&self) -> CenterPaneView<T> {
        CenterPaneView { items: self.items@, active_index: self.active_index as int }
    }
}

impl<T> CenterPane<T> {
    /// The active position points at an item, or is 0 where there is none.
    pub open spec fn wf(&self) -> bool {
        ||| 0 <= self@.active_index < self@.items.len()
        ||| (self@.items.len() == 0 && self@.active_index == 0)
    }

    /// Creates an empty pane.
    pub fn new() -> (r: CenterPane<T>)
        ensures
            r@.items == Seq::<T>::empty(),
            r@.active_index == 0,
            r.wf(),
    {
        CenterPane { items: Vec::new(), active_index: 0 }
    }

    /// Whether the pane holds no item.
    pub fn is_empty(&self) -> (r: bool)
        ensures
            r == (self@.items.len() == 0),
    {
        self.items.len() == 0
    }

    /// The active item, if the pane holds any.
    pub fn active_item(&self) -> (r: Option<&T>)
        requires
            self.wf(),
        ensures
            r is Some <==> self@.items.len() > 0,
            r matches Some(x) ==> *x == self@.items[self@.active_index],
    {
        if self.active_index < self.items.len() {
            Some(&self.items[self.active_index])
        } else {
            None
        }
    }

    /// Adds `item` after the others and makes it the active one.
    pub fn add_item(&mut self, item: T)
        requires
            old(self).wf(),
            old(self)@.items.len() < usize::MAX,
        ensures
            final(self)@.items == old(self)@.items.push(item),
            final(self)@.active_index == old(self)@.items.len(),
            final(self).wf(),
    {
        self.items.push(item);
        self.active_index = self.items.len() - 1;
    }

    /// Removes and returns the item at `index`, if there is one; the active
    /// position is moved to the last item where it would point past the end.
    pub fn close_item(&mut self, index: usize) -> (r: Option<T>)
        requires
            old(self).wf(),
        ensures
            index < old(self)@.items.len() ==> {
                &&& r == Some(old(self)@.items[index as int])
                &&& final(self)@.items == old(self)@.items.remove(index as int)
                &&& final(self)@.active_index == active_after_close(
                    old(self)@.active_index,
                    final(self)@.items.len() as int,
                )
            },
            index >= old(self)@.items.len() ==> r is None && final(self)@ == old(self)@,
            final(self).wf(),
    {
        if index < self.items.len() {
            let removed = self.items.remove(index);
            if self.active_index >= self.items.len() && self.items.len() != 0 {
                self.active_index = self.items.len() - 1;
            }
            Some(removed)
        } else {
            None
        }
    }

    /// Makes the item at `index` the active one, if there is such an item.
    pub fn set_active(&mut self, index: usize)
        requires
            old(self).wf(),
        ensures
            final(self)@.items == old(self)@.items,
            final(self)@.active_index == if index < old(self)@.items.len() {
                index as int
            } else {
                old(self)@.active_index
            },
            final(self).wf(),
    {
        if index < self.items.len() {
            self.active_index = index;
        }
    }
}

} // verus!

//! An ordered list with an optional cursor that moves cyclically.

use vstd::prelude::*;

verus! {

/// A [`StatefulList`] as a mathematical value.
pub ghost struct ListView<T> {
    pub items: Seq<T>,
    pub cursor: Option<nat>,
}

/// Whether a cursor is absent or points into a list of `len` items.
pub open spec fn valid_cursor(cursor: Option<nat>, len: nat) -> bool {
    cursor matches Some(i) ==> i < len
}

/// The cursor of a freshly built list: the first item, if there is one.
pub open spec fn initial_cursor(len: nat) -> Option<nat> {
    if len == 0 {
        None
    } else {
        Some(0)
    }
}

/// The cursor after the items were replaced by `len` new ones: an absent
/// cursor stays absent, a present one is clamped to the last item.
pub open spec fn refreshed_cursor(cursor: Option<nat>, len: nat) -> Option<nat> {
    match cursor {
        Some(i) => if len == 0 {
            None
        } else if i >= len {
            Some((len - 1) as nat)
        } else {
            Some(i)
        },
        None => None,
    }
}

/// The cursor after one step forward in a list of `len` items.
pub open spec fn next_cursor(cursor: Option<nat>, len: nat) -> Option<nat> {
    if len == 0 {
        cursor
    } else {
        match cursor {
            Some(i) => if i + 1 >= len {
                Some(0)
            } else {
                Some(i + 1)
            },
            None => Some(0),
        }
    }
}

/// The cursor after one step backward in a list of `len` items.
pub open spec fn previous_cursor(cursor: Option<nat>, len: nat) -> Option<nat> {
    if len == 0 {
        cursor
    } else {
        match cursor {
            Some(i) => if i == 0 {
                Some((len - 1) as nat)
            } else {
                Some((i - 1) as nat)
            },
            None => Some(0),
        }
    }
}

/// The cursor after `steps` steps forward.
pub open spec fn next_cursor_times(cursor: Option<nat>, len: nat, steps: nat) -> Option<nat>
    decreases steps,
{
    if steps == 0 {
        cursor
    } else {
        next_cursor(next_cursor_times(cursor, len, (steps - 1) as nat), len)
    }
}

/// Replacing the items never leaves the cursor outside the new list, and
/// leaves it absent when the new list is empty.
pub proof fn lemma_refreshed_cursor_valid(cursor: Option<nat>, len: nat)
    ensures
        valid_cursor(refreshed_cursor(cursor, len), len),
        len == 0 ==> refreshed_cursor(cursor, len) is None,
{
}

/// Moving keeps a valid cursor valid.
pub proof fn lemma_moves_keep_cursor_valid(cursor: Option<nat>, len: nat)
    requires
        valid_cursor(cursor, len),
    ensures
        valid_cursor(next_cursor(cursor, len), len),
        valid_cursor(previous_cursor(cursor, len), len),
{
}

/// In a list of one item both moves select that item, whatever the cursor was.
pub proof fn lemma_single_item_moves(cursor: Option<nat>)
    requires
        valid_cursor(cursor, 1),
    ensures
        next_cursor(cursor, 1) == Some(0nat),
        previous_cursor(cursor, 1) == Some(0nat),
{
}

/// In an empty list the cursor stays absent under both moves.
pub proof fn lemma_empty_list_moves(cursor: Option<nat>)
    requires
        valid_cursor(cursor, 0),
    ensures
        cursor is None,
        next_cursor(cursor, 0) is None,
        previous_cursor(cursor, 0) is None,
{
}

/// After `steps` steps forward, with `steps` at most `len`, a cursor at `start`
/// stands `steps` items further on, counted round the end of the list.
pub proof fn lemma_next_cursor_times(start: nat, len: nat, steps: nat)
    requires
        start < len,
        steps <= len,
    ensures
        next_cursor_times(Some(start), len, steps) == Some(
            if start + steps < len {
                start + steps
            } else {
                (start + steps - len) as nat
            },
        ),
    decreases steps,
{
    if steps > 0 {
        lemma_next_cursor_times(start, len, (steps - 1) as nat);
    }
}

/// Moving forward as many times as the list has items brings the cursor
/// back to where it started.
pub proof fn lemma_next_cycle(start: nat, len: nat)
    requires
        start < len,
    ensures
        next_cursor_times(Some(start), len, len) == Some(start),
{
    lemma_next_cursor_times(start, len, len);
}

/// A moving step back undoes a step forward, and the other way round.
pub proof fn lemma_moves_are_inverse(start: nat, len: nat)
    requires
        start < len,
    ensures
        previous_cursor(next_cursor(Some(start), len), len) == Some(start),
        next_cursor(previous_cursor(Some(start), len), len) == Some(start),
{
}

/// Items in a fixed order, with an optional cursor on one of them.
pub struct StatefulList<T> {
    items: Vec<T>,
    cursor: Option<usize>,
}

impl<T> View for StatefulList<T> {
    type V = ListView<T>;

    closed spec fn view(&self) -> ListView<T> {
        ListView {
            items: self.items@,
            cursor: match self.cursor {
                Some(i) => Some(i as nat),
                None => None,
            },
        }
    }
}

impl<T> StatefulList<T> {
    /// Whether the cursor is absent or points at an item. Every list is so.
    #[verifier::type_invariant]
    pub closed spec fn cursor_in_range(&self) -> bool {
        self.cursor matches Some(i) ==> i < self.items.len()
    }

    /// What the invariant of a list says of its view.
    pub proof fn lemma_cursor_in_range(&self)
        requires
            self.cursor_in_range(),
        ensures
            valid_cursor(self@.cursor, self@.items.len()),
    {
    }

    /// Builds a list with the cursor on the first item, or absent if there is none.
    pub fn with_items(items: Vec<T>) -> (list: StatefulList<T>)
        ensures
            list@.items == items@,
            list@.cursor == initial_cursor(items@.len()),
    {
        let cursor = if items.len() == 0 {
            None
        } else {
            Some(0)
        };
        StatefulList { items, cursor }
    }

    /// Replaces the items; the cursor keeps its index as far as the new
    /// length allows, and an absent cursor stays absent.
    pub fn set_items(&mut self, items: Vec<T>)
        ensures
            final(self)@.items == items@,
            final(self)@.cursor == refreshed_cursor(old(self)@.cursor, items@.len()),
            valid_cursor(final(self)@.cursor, items@.len()),
            items@.len() == 0 ==> final(self)@.cursor is None,
        no_unwind
    {
        let len = items.len();
        let cursor = match self.cursor {
            Some(i) => if len == 0 {
                None
            } else if i >= len {
                Some(len - 1)
            } else {
                Some(i)
            },
            None => None,
        };
        *self = StatefulList { items, cursor };
    }

    /// The item under the cursor, if the cursor is present.
    pub fn current(&self) -> (item: Option<&T>)
        ensures
            valid_cursor(self@.cursor, self@.items.len()),
            match self@.cursor {
                Some(i) => item == Some(&self@.items[i as int]),
                None => item is None,
            },
    {
        proof {
            use_type_invariant(self);
        }
        match self.cursor {
            Some(i) => Some(&self.items[i]),
            None => None,
        }
    }

    /// Moves the cursor one item forward, from the last item to the first;
    /// an absent cursor goes to the first item. Nothing happens on an empty list.
    pub fn next(&mut self)
        ensures
            final(self)@.items == old(self)@.items,
            final(self)@.cursor == next_cursor(old(self)@.cursor, old(self)@.items.len()),
            valid_cursor(final(self)@.cursor, final(self)@.items.len()),
        no_unwind
    {
        proof {
            use_type_invariant(&*self);
        }
        let len = self.items.len();
        if len == 0 {
            return ;
        }
        let cursor = match self.cursor {
            Some(i) => if i >= len - 1 {
                0
            } else {
                i + 1
            },
            None => 0,
        };
        self.cursor = Some(cursor);
    }

    /// Moves the cursor one item backward, from the first item to the last;
    /// an absent cursor goes to the first item. Nothing happens on an empty list.
    pub fn previous(&mut self)
        ensures
            final(self)@.items == old(self)@.items,
            final(self)@.cursor == previous_cursor(old(self)@.cursor, old(self)@.items.len()),
            valid_cursor(final(self)@.cursor, final(self)@.items.len()),
        no_unwind
    {
        proof {
            use_type_invariant(&*self);
        }
        let len = self.items.len();
        if len == 0 {
            return ;
        }
        let cursor = match self.cursor {
            Some(i) => if i == 0 {
                len - 1
            } else {
                i - 1
            },
            None => 0,
        };
        self.cursor = Some(cursor);
    }

    /// Takes the cursor away; the items stay.
    pub fn unselect(&mut self)
        ensures
            final(self)@.items == old(self)@.items,
            final(self)@.cursor is None,
        no_unwind
    {
        self.cursor = None;
    }

    /// The index under the cursor, if the cursor is present.
    pub fn selected(&self) -> (index: Option<usize>)
        ensures
            valid_cursor(self@.cursor, self@.items.len()),
            match index {
                Some(i) => self@.cursor == Some(i as nat),
                None => self@.cursor is None,
            },
    {
        proof {
            use_type_invariant(self);
        }
        self.cursor
    }

    /// The items, in order.
    pub fn items(&self) -> (items: &Vec<T>)
        ensures
            items@ == self@.items,
    {
        &self.items
    }
}

} // verus!

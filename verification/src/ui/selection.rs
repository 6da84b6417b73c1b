//! Cursor over an ordered list, with wraparound navigation.
//!
//! The cursor is sticky: replacing the items never moves a cursor that is
//! already set, so after a replacement by a shorter list it may point past
//! the end. Such a cursor selects nothing until navigation brings it back.

use vstd::prelude::*;

verus! {

/// Where the cursor stands after one step forward over `len` items.
///
/// Nothing moves over an empty list. An unset cursor goes to the first item,
/// and a cursor on or past the last item wraps to the first.
pub open spec fn next_cursor(cursor: Option<usize>, len: nat) -> Option<usize> {
    if len == 0 {
        cursor
    } else {
        match cursor {
            Some(i) => if i + 1 >= len {
                Some(0usize)
            } else {
                Some((i + 1) as usize)
            },
            None => Some(0usize),
        }
    }
}

/// Where the cursor stands after one step backward over `len` items.
///
/// Nothing moves over an empty list. An unset cursor goes to the first item,
/// and a cursor on the first item wraps to the last.
pub open spec fn previous_cursor(cursor: Option<usize>, len: nat) -> Option<usize> {
    if len == 0 {
        cursor
    } else {
        match cursor {
            Some(i) => if i == 0 {
                Some((len - 1) as usize)
            } else {
                Some((i - 1) as usize)
            },
            None => Some(0usize),
        }
    }
}

/// The cursor after `steps` steps forward.
pub open spec fn next_cursor_n(cursor: Option<usize>, len: nat, steps: nat) -> Option<usize>
    decreases steps,
{
    if steps == 0 {
        cursor
    } else {
        next_cursor_n(next_cursor(cursor, len), len, (steps - 1) as nat)
    }
}

/// The cursor after `steps` steps backward.
pub open spec fn previous_cursor_n(cursor: Option<usize>, len: nat, steps: nat) -> Option<usize>
    decreases steps,
{
    if steps == 0 {
        cursor
    } else {
        previous_cursor_n(previous_cursor(cursor, len), len, (steps - 1) as nat)
    }
}

/// The cursor after a replacement of the items by `new_len` items: an unset
/// cursor goes to the first item if there is one, a set cursor stays.
pub open spec fn cursor_after_replace(cursor: Option<usize>, new_len: nat) -> Option<usize> {
    if cursor is None && new_len > 0 {
        Some(0usize)
    } else {
        cursor
    }
}

/// An ordered list with an optional cursor.
pub struct SelectableList<T> {
    pub items: Vec<T>,
    pub cursor: Option<usize>,
}

impl<T> SelectableList<T> {
    /// A list without a cursor is empty. Every list built by `new` and changed
    /// only through the methods of this type is consistent.
    pub open spec fn consistent(&self) -> bool {
        self.cursor is None ==> self.items@.len() == 0
    }

    /// The cursor points at an item.
    pub open spec fn in_range(&self) -> bool {
        self.cursor matches Some(i) && i < self.items@.len()
    }

    /// The item under the cursor, if the cursor is set and in range.
    pub open spec fn spec_selected(&self) -> Option<T> {
        match self.cursor {
            Some(i) => if i < self.items@.len() {
                Some(self.items@[i as int])
            } else {
                None
            },
            None => None,
        }
    }

    /// The list after one step forward.
    pub open spec fn spec_select_next(self) -> Self {
        SelectableList { items: self.items, cursor: next_cursor(self.cursor, self.items@.len()) }
    }

    /// The list after one step backward.
    pub open spec fn spec_select_previous(self) -> Self {
        SelectableList {
            items: self.items,
            cursor: previous_cursor(self.cursor, self.items@.len()),
        }
    }

    /// The list after its items were replaced by `items`.
    pub open spec fn spec_replace(self, items: Vec<T>) -> Self {
        SelectableList { items, cursor: cursor_after_replace(self.cursor, items@.len()) }
    }

    /// An empty list with no cursor.
    pub fn new() -> (r: Self)
        ensures
            r.items@.len() == 0,
            r.cursor is None,
            r.consistent(),
    {
        SelectableList { items: Vec::new(), cursor: None }
    }

    /// Number of items.
    pub fn len(&self) -> (n: usize)
        ensures
            n == self.items@.len(),
    {
        self.items.len()
    }

    /// Whether the list holds no item.
    pub fn is_empty(&self) -> (b: bool)
        ensures
            b == (self.items@.len() == 0),
    {
        self.items.len() == 0
    }

    /// Moves the cursor one item forward, wrapping past the last item to the
    /// first. Does nothing on an empty list.
    pub fn select_next(&mut self)
        ensures
            *final(self) == old(self).spec_select_next(),
            final(self).items == old(self).items,
            old(self).consistent() ==> final(self).consistent(),
            old(self).items@.len() > 0 ==> final(self).in_range(),
    {
        let len = self.items.len();
        if len > 0 {
            let i: usize = match self.cursor {
                Some(i) => if i >= len - 1 {
                    0
                } else {
                    i + 1
                },
                None => 0,
            };
            self.cursor = Some(i);
        }
    }

    /// Moves the cursor one item backward, wrapping from the first item to
    /// the last. Does nothing on an empty list.
    pub fn select_previous(&mut self)
        ensures
            *final(self) == old(self).spec_select_previous(),
            final(self).items == old(self).items,
            old(self).consistent() ==> final(self).consistent(),
            old(self).in_range() ==> final(self).in_range(),
    {
        let len = self.items.len();
        if len > 0 {
            let i: usize = match self.cursor {
                Some(i) => if i == 0 {
                    len - 1
                } else {
                    i - 1
                },
                None => 0,
            };
            self.cursor = Some(i);
        }
    }

    /// The item under the cursor. A cursor that is unset or out of range
    /// selects nothing.
    pub fn selected(&self) -> (r: Option<&T>)
        ensures
            match r {
                Some(item) => self.spec_selected() == Some(*item),
                None => self.spec_selected() is None,
            },
            r is Some <==> self.in_range(),
    {
        match self.cursor {
            Some(i) => if i < self.items.len() {
                Some(&self.items[i])
            } else {
                None
            },
            None => None,
        }
    }

    /// Replaces the items. A cursor that was unset goes to the first new
    /// item, if there is one; a cursor that was set is left where it is,
    /// even if it now points past the end.
    pub fn replace(&mut self, items: Vec<T>)
        ensures
            *final(self) == old(self).spec_replace(items),
            final(self).items == items,
            final(self).cursor == cursor_after_replace(old(self).cursor, items@.len()),
            final(self).consistent(),
    {
        self.items = items;
        if self.items.len() > 0 && self.cursor.is_none() {
            self.cursor = Some(0);
        }
    }
}

/// After `steps` steps forward from an item, the cursor stands `steps`
/// items further, counted around the list.
pub proof fn lemma_next_cursor_n(i: usize, len: nat, steps: nat)
    requires
        i < len,
        len <= usize::MAX,
    ensures
        next_cursor_n(Some(i), len, steps) == Some(((i + steps) % (len as int)) as usize),
    decreases steps,
{
    if steps == 0 {
        assert((i as int) % (len as int) == i) by (nonlinear_arith)
            requires
                0 <= i < len,
        ;
    } else {
        let j: usize = if i + 1 >= len {
            0usize
        } else {
            (i + 1) as usize
        };
        assert(next_cursor(Some(i), len) == Some(j));
        lemma_next_cursor_n(j, len, (steps - 1) as nat);
        assert((j + (steps - 1)) % (len as int) == (i + steps) % (len as int)) by {
            if i + 1 >= len {
                assert(i + 1 == len);
                vstd::arithmetic::div_mod::lemma_mod_add_multiples_vanish(
                    steps - 1,
                    len as int,
                );
            }
        }
    }
}

/// After `steps` steps backward from an item, the cursor stands `steps`
/// items before it, counted around the list.
pub proof fn lemma_previous_cursor_n(i: usize, len: nat, steps: nat)
    requires
        i < len,
        len <= usize::MAX,
    ensures
        previous_cursor_n(Some(i), len, steps) == Some(((i - steps) % (len as int)) as usize),
    decreases steps,
{
    if steps == 0 {
        assert((i as int) % (len as int) == i) by (nonlinear_arith)
            requires
                0 <= i < len,
        ;
    } else {
        let j: usize = if i == 0 {
            (len - 1) as usize
        } else {
            (i - 1) as usize
        };
        assert(previous_cursor(Some(i), len) == Some(j));
        lemma_previous_cursor_n(j, len, (steps - 1) as nat);
        assert((j - (steps - 1)) % (len as int) == (i - steps) % (len as int)) by {
            if i == 0 {
                vstd::arithmetic::div_mod::lemma_mod_add_multiples_vanish(
                    i - steps,
                    len as int,
                );
            }
        }
    }
}

/// Wraparound: over a list of `len` items, `len` steps forward from any item
/// lead back to that item.
pub proof fn lemma_select_next_wraps_around(i: usize, len: nat)
    requires
        i < len,
        len <= usize::MAX,
    ensures
        next_cursor_n(Some(i), len, len) == Some(i),
{
    lemma_next_cursor_n(i, len, len);
    vstd::arithmetic::div_mod::lemma_mod_add_multiples_vanish(i as int, len as int);
    assert((i as int) % (len as int) == i) by (nonlinear_arith)
        requires
            0 <= i < len,
    ;
}

/// Wraparound: over a list of `len` items, `len` steps backward from any item
/// lead back to that item.
pub proof fn lemma_select_previous_wraps_around(i: usize, len: nat)
    requires
        i < len,
        len <= usize::MAX,
    ensures
        previous_cursor_n(Some(i), len, len) == Some(i),
{
    lemma_previous_cursor_n(i, len, len);
    vstd::arithmetic::div_mod::lemma_mod_sub_multiples_vanish(i as int, len as int);
    assert((i as int) % (len as int) == i) by (nonlinear_arith)
        requires
            0 <= i < len,
    ;
}

/// On an empty list no number of steps moves the cursor, and nothing is
/// selected.
pub proof fn lemma_empty_list_is_inert<T>(list: SelectableList<T>, steps: nat)
    requires
        list.items@.len() == 0,
    ensures
        list.spec_select_next() == list,
        list.spec_select_previous() == list,
        next_cursor_n(list.cursor, 0, steps) == list.cursor,
        previous_cursor_n(list.cursor, 0, steps) == list.cursor,
        list.spec_selected() is None,
    decreases steps,
{
    if steps > 0 {
        lemma_empty_list_is_inert(list, (steps - 1) as nat);
    }
}

/// Sticky index: a cursor that was set survives a replacement unchanged, and
/// selects nothing while it points past the end of the new items. From there
/// one step forward selects the first item.
pub proof fn lemma_sticky_cursor<T>(list: SelectableList<T>, items: Vec<T>)
    requires
        list.cursor is Some,
    ensures
        list.spec_replace(items).cursor == list.cursor,
        list.cursor->0 >= items@.len() ==> list.spec_replace(items).spec_selected() is None,
        list.cursor->0 < items@.len() ==> list.spec_replace(items).spec_selected() == Some(
            items@[list.cursor->0 as int],
        ),
        list.cursor->0 >= items@.len() && items@.len() > 0 ==> list.spec_replace(
            items,
        ).spec_select_next().spec_selected() == Some(items@[0]),
{
}

} // verus!

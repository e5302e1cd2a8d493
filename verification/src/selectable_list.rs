//! An ordered collection with at most one active index, navigable
//! circularly: moving past the last item returns to the first, and
//! moving before the first returns to the last.

use vstd::prelude::*;

verus! {

use vstd::arithmetic::div_mod::{lemma_mod_multiples_vanish, lemma_mod_self_0, lemma_small_mod};

/// A fixed sequence of items together with an optional cursor into it.
///
/// The items are set at construction and never resized; only the cursor
/// moves, via [`SelectableList::next`] and [`SelectableList::previous`].
pub struct SelectableList<T> {
    pub items: Vec<T>,
    pub selected: Option<usize>,
}

/// The cursor that one forward step reaches: on an empty list nothing
/// changes, from no cursor the first item is reached, and from the last
/// item the cursor wraps back to the first.
pub open spec fn next_index(sel: Option<usize>, len: nat) -> Option<usize> {
    if len == 0 {
        sel
    } else {
        match sel {
            None => Some(0usize),
            Some(i) => Some((((i + 1) % (len as int)) as usize)),
        }
    }
}

/// The cursor that one backward step reaches: on an empty list nothing
/// changes, from no cursor the first item is reached, and from the first
/// item the cursor wraps to the last.
pub open spec fn prev_index(sel: Option<usize>, len: nat) -> Option<usize> {
    if len == 0 {
        sel
    } else {
        match sel {
            None => Some(0usize),
            Some(i) => Some((((i - 1 + len) % (len as int)) as usize)),
        }
    }
}

impl<T> SelectableList<T> {
    /// The cursor, when present, points at an item; an empty list has no
    /// cursor.
    pub open spec fn wf(&self) -> bool {
        &&& (self.selected matches Some(i) ==> i < self.items@.len())
        &&& (self.items@.len() == 0 ==> self.selected is None)
    }

    /// Builds a list over the given items with no cursor; always
    /// succeeds, an empty sequence included.
    pub fn new(items: Vec<T>) -> (l: SelectableList<T>)
        ensures
            l.items == items,
            l.selected is None,
            l.wf(),
    {
        SelectableList { items, selected: None }
    }

    /// Moves the cursor one step forward, wrapping past the end; on an
    /// empty list this is a no-op.
    pub fn next(&mut self)
        requires
            old(self).wf(),
        ensures
            final(self).wf(),
            final(self).items == old(self).items,
            final(self).selected == next_index(old(self).selected, old(self).items@.len()),
    {
        if self.items.len() == 0 {
            return;
        }
        let len: usize = self.items.len();
        let i: usize = match self.selected {
            Some(i) => {
                if i >= len - 1 {
                    proof {
                        lemma_mod_self_0(len as int);
                    }
                    0
                } else {
                    proof {
                        lemma_small_mod((i + 1) as nat, len as nat);
                    }
                    i + 1
                }
            },
            None => 0,
        };
        self.selected = Some(i);
    }

    /// Moves the cursor one step backward, wrapping before the start; on
    /// an empty list this is a no-op.
    pub fn previous(&mut self)
        requires
            old(self).wf(),
        ensures
            final(self).wf(),
            final(self).items == old(self).items,
            final(self).selected == prev_index(old(self).selected, old(self).items@.len()),
    {
        if self.items.len() == 0 {
            return;
        }
        let len: usize = self.items.len();
        let i: usize = match self.selected {
            Some(i) => {
                if i == 0 {
                    proof {
                        lemma_small_mod((len - 1) as nat, len as nat);
                    }
                    len - 1
                } else {
                    proof {
                        lemma_mod_multiples_vanish(1, i - 1, len as int);
                        lemma_small_mod((i - 1) as nat, len as nat);
                    }
                    i - 1
                }
            },
            None => 0,
        };
        self.selected = Some(i);
    }

    /// How many items the list holds.
    pub fn len(&self) -> (n: usize)
        ensures
            n == self.items@.len(),
    {
        self.items.len()
    }

    /// The current cursor, if any.
    pub fn selected_index(&self) -> (s: Option<usize>)
        ensures
            s == self.selected,
    {
        self.selected
    }
}

/// Law: on a non-empty list, a forward step from cursor `i` lands on
/// `(i + 1) mod len`.
pub proof fn lemma_next_advances_mod(i: usize, len: nat)
    requires
        0 < len,
        i < len,
    ensures
        next_index(Some(i), len) == Some((((i + 1) % (len as int)) as usize)),
{
}

/// Law: on a non-empty list, a backward step from cursor `i` lands on
/// `(i - 1 + len) mod len`.
pub proof fn lemma_previous_retreats_mod(i: usize, len: nat)
    requires
        0 < len,
        i < len,
    ensures
        prev_index(Some(i), len) == Some((((i - 1 + len) % (len as int)) as usize)),
{
}

/// Law: a list of exactly one item always wraps to itself, so any
/// navigation step leaves the cursor at the sole item.
pub proof fn lemma_singleton_cursor_fixed(sel: Option<usize>)
    requires
        sel matches Some(i) ==> i == 0,
    ensures
        next_index(sel, 1) == Some(0usize),
        prev_index(sel, 1) == Some(0usize),
{
}

} // verus!

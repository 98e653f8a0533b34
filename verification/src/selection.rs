//! An ordered container with at most one selected index.
//!
//! Every lane of the board holds its cards in a [`SelectionList`]. Insertion
//! order is meaningful: it is display order. Navigation wraps cyclically in
//! both directions (last to first and first to last); reading or navigating
//! an empty or unselected list is always safe and never a fault.

use vstd::prelude::*;

use crate::errors::KanbanError;

verus! {

/// Mathematical model of a [`SelectionList`]: the item sequence and the
/// selected index, if any.
pub ghost struct SelectionView<T> {
    pub items: Seq<T>,
    pub selected: Option<int>,
}

/// A selection is valid for a list of length `len` when it is `None` or an
/// index inside the list.
pub open spec fn valid_selection(selected: Option<int>, len: nat) -> bool {
    match selected {
        Some(i) => 0 <= i < len,
        None => true,
    }
}

/// The selection after one forward step: an empty list is untouched, an
/// unselected list selects index 0, and otherwise the selection moves to
/// `(i + 1) mod len`, wrapping from the last index back to the first.
pub open spec fn spec_next(selected: Option<int>, len: nat) -> Option<int> {
    if len == 0 {
        selected
    } else {
        match selected {
            None => Some(0int),
            Some(i) => Some((i + 1) % (len as int)),
        }
    }
}

/// The selection after one backward step: symmetric to [`spec_next`],
/// wrapping from the first index to the last.
pub open spec fn spec_previous(selected: Option<int>, len: nat) -> Option<int> {
    if len == 0 {
        selected
    } else {
        match selected {
            None => Some(0int),
            Some(i) => Some(if i == 0 { len - 1 } else { i - 1 }),
        }
    }
}

/// The selection after removing the element at index `removed`: a selection
/// on the removed element is cleared, one past it is decremented so that it
/// keeps tracking the same logical element, and one before it is unchanged.
pub open spec fn spec_selection_after_remove(selected: Option<int>, removed: int) -> Option<int> {
    match selected {
        None => None,
        Some(j) => if j == removed {
            None
        } else if j > removed {
            Some(j - 1)
        } else {
            Some(j)
        },
    }
}

/// The selection after inserting an element at index `at`: a selection at or
/// past the insertion point is incremented so that it keeps tracking the
/// same logical element.
pub open spec fn spec_selection_after_insert(selected: Option<int>, at: int) -> Option<int> {
    match selected {
        None => None,
        Some(j) => if j >= at {
            Some(j + 1)
        } else {
            Some(j)
        },
    }
}

/// An ordered list of items with at most one selected ("highlighted") index,
/// supporting cyclic traversal, explicit select/unselect, insertion, and
/// removal-by-index with selection repair.
pub struct SelectionList<T> {
    items: Vec<T>,
    selected: Option<usize>,
}

impl<T> View for SelectionList<T> {
    type V = SelectionView<T>;

    closed spec fn view(&self) -> SelectionView<T> {
        SelectionView {
            items: self.items@,
            selected: match self.selected {
                Some(i) => Some(i as int),
                None => None,
            },
        }
    }
}

impl<T> SelectionList<T> {
    /// Well-formed: the selected index, if any, lies inside the item
    /// sequence. Constructors establish this and every method preserves it.
    pub open spec fn inv(&self) -> bool {
        valid_selection(self@.selected, self@.items.len())
    }

    /// Constructs a list holding `items`, with nothing selected.
    pub fn with_items(items: Vec<T>) -> (list: Self)
        ensures
            list@.items == items@,
            list@.selected is None,
            list.inv(),
    {
        SelectionList { items, selected: None }
    }

    /// The number of items.
    pub fn len(&self) -> (n: usize)
        ensures
            n == self@.items.len(),
    {
        self.items.len()
    }

    /// The selected index, if any.
    pub fn selected_index(&self) -> (r: Option<usize>)
        ensures
            match r {
                Some(i) => self@.selected == Some(i as int),
                None => self@.selected is None,
            },
    {
        self.selected
    }

    /// A read-only look at the items, in display order.
    pub fn items(&self) -> (r: &Vec<T>)
        ensures
            r@ == self@.items,
    {
        &self.items
    }

    /// Moves the selection one step forward, cyclically: on an empty list a
    /// no-op, on an unselected list index 0 is selected, and otherwise the
    /// selection becomes `(i + 1) mod len`.
    pub fn next(&mut self)
        requires
            old(self).inv(),
        ensures
            final(self).inv(),
            final(self)@.items == old(self)@.items,
            final(self)@.selected == spec_next(old(self)@.selected, old(self)@.items.len()),
    {
        let len: usize = self.items.len();
        if len == 0 {
            return ;
        }
        let next_index: usize = match self.selected {
            None => 0,
            Some(i) => if i + 1 == len {
                0
            } else {
                i + 1
            },
        };
        self.selected = Some(next_index);
        proof {
            match old(self)@.selected {
                Some(i) => {
                    if i + 1 == len {
                        vstd::arithmetic::div_mod::lemma_mod_self_0(len as int);
                    } else {
                        vstd::arithmetic::div_mod::lemma_small_mod((i + 1) as nat, len as nat);
                    }
                },
                None => {},
            }
        }
    }

    /// Moves the selection one step backward, cyclically: on an empty list a
    /// no-op, on an unselected list index 0 is selected, and otherwise the
    /// first index wraps to the last.
    pub fn previous(&mut self)
        requires
            old(self).inv(),
        ensures
            final(self).inv(),
            final(self)@.items == old(self)@.items,
            final(self)@.selected == spec_previous(old(self)@.selected, old(self)@.items.len()),
    {
        let len: usize = self.items.len();
        if len == 0 {
            return ;
        }
        let prev_index: usize = match self.selected {
            None => 0,
            Some(i) => if i == 0 {
                len - 1
            } else {
                i - 1
            },
        };
        self.selected = Some(prev_index);
    }

    /// Clears the selection unconditionally. Idempotent and always safe.
    pub fn unselect(&mut self)
        ensures
            final(self).inv(),
            final(self)@.items == old(self)@.items,
            final(self)@.selected is None,
    {
        self.selected = None;
    }

    /// Selects index `index`, or reports `IndexOutOfRange` (leaving the list
    /// unchanged) if `index` is not in range.
    pub fn select(&mut self, index: usize) -> (r: Result<(), KanbanError>)
        ensures
            final(self)@.items == old(self)@.items,
            old(self).inv() ==> final(self).inv(),
            index < old(self)@.items.len() ==> {
                &&& r is Ok
                &&& final(self)@.selected == Some(index as int)
                &&& final(self).inv()
            },
            index >= old(self)@.items.len() ==> {
                &&& r matches Err(e) && e == KanbanError::IndexOutOfRange
                &&& *final(self) == *old(self)
            },
    {
        if index >= self.items.len() {
            return Err(KanbanError::IndexOutOfRange);
        }
        self.selected = Some(index);
        Ok(())
    }

    /// The selected element, or `None`. Reading an empty or unselected list
    /// is always safe and returns an empty result, never a fault.
    pub fn current(&self) -> (r: Option<&T>)
        requires
            self.inv(),
        ensures
            match self@.selected {
                Some(i) => r matches Some(item) && *item == self@.items[i],
                None => r is None,
            },
    {
        match self.selected {
            Some(i) => Some(&self.items[i]),
            None => None,
        }
    }

    /// Removes and returns the element at `index`, or reports
    /// `IndexOutOfRange` (leaving the list unchanged) if `index` is not in
    /// range. A selection on the removed element is cleared (the caller must
    /// re-select if desired); one past it is decremented so that it keeps
    /// tracking the same logical element.
    pub fn remove(&mut self, index: usize) -> (r: Result<T, KanbanError>)
        requires
            old(self).inv(),
        ensures
            final(self).inv(),
            index < old(self)@.items.len() ==> {
                &&& r matches Ok(item) && item == old(self)@.items[index as int]
                &&& final(self)@.items == old(self)@.items.remove(index as int)
                &&& final(self)@.selected == spec_selection_after_remove(
                    old(self)@.selected,
                    index as int,
                )
            },
            index >= old(self)@.items.len() ==> {
                &&& r matches Err(e) && e == KanbanError::IndexOutOfRange
                &&& *final(self) == *old(self)
            },
    {
        if index >= self.items.len() {
            return Err(KanbanError::IndexOutOfRange);
        }
        let item = self.items.remove(index);
        let new_selected: Option<usize> = match self.selected {
            None => None,
            Some(j) => if j == index {
                None
            } else if j > index {
                Some(j - 1)
            } else {
                Some(j)
            },
        };
        self.selected = new_selected;
        Ok(item)
    }

    /// Appends `item` at the end; the selection is unaffected.
    pub fn push(&mut self, item: T)
        requires
            old(self).inv(),
        ensures
            final(self).inv(),
            final(self)@.items == old(self)@.items.push(item),
            final(self)@.selected == old(self)@.selected,
    {
        self.items.push(item);
    }

    /// Inserts `item` at `index`, shifting later elements one place towards
    /// the end. A selection at or past `index` is incremented so that it
    /// keeps tracking the same logical element.
    pub fn insert(&mut self, index: usize, item: T)
        requires
            old(self).inv(),
            index <= old(self)@.items.len(),
        ensures
            final(self).inv(),
            final(self)@.items == old(self)@.items.insert(index as int, item),
            final(self)@.selected == spec_selection_after_insert(
                old(self)@.selected,
                index as int,
            ),
    {
        proof {
            // `len()` relates the sequence length to a `usize`, so `j + 1`
            // below cannot overflow.
            assert(self.items.len() <= usize::MAX);
        }
        let new_selected: Option<usize> = match self.selected {
            None => None,
            Some(j) => if j >= index {
                Some(j + 1)
            } else {
                Some(j)
            },
        };
        self.items.insert(index, item);
        self.selected = new_selected;
    }

    /// Replaces the element at `index` with `item`, returning the element
    /// that was there. The selection is unaffected.
    pub fn replace(&mut self, index: usize, item: T) -> (old_item: T)
        requires
            old(self).inv(),
            index < old(self)@.items.len(),
        ensures
            final(self).inv(),
            old_item == old(self)@.items[index as int],
            final(self)@.items == old(self)@.items.update(index as int, item),
            final(self)@.selected == old(self)@.selected,
    {
        let old_item = self.items.remove(index);
        self.items.insert(index, item);
        proof {
            lemma_remove_insert_is_update(old(self)@.items, index as int, item);
        }
        old_item
    }
}

/// Removing the element at `i` and then inserting `item` at the same index
/// yields the same sequence as overwriting index `i` with `item` directly.
pub proof fn lemma_remove_insert_is_update<T>(s: Seq<T>, i: int, item: T)
    requires
        0 <= i < s.len(),
    ensures
        s.remove(i).insert(i, item) == s.update(i, item),
{
    assert(s.remove(i).insert(i, item) =~= s.update(i, item));
}

/// Removing the element at `i` and re-inserting that same element at the
/// same index reproduces the original item sequence. (The selection need
/// not be reproduced: [`SelectionList::remove`] clears a selection that
/// pointed at `i`.)
pub proof fn lemma_remove_then_reinsert<T>(items: Seq<T>, i: int)
    requires
        0 <= i < items.len(),
    ensures
        items.remove(i).insert(i, items[i]) == items,
{
    lemma_remove_insert_is_update(items, i, items[i]);
    assert(items.update(i, items[i]) =~= items);
}

/// The selection after a whole sequence of navigation steps, each either
/// forward (`true`, as [`SelectionList::next`] moves it) or backward
/// (`false`, as [`SelectionList::previous`] moves it).
pub open spec fn apply_steps(selected: Option<int>, len: nat, steps: Seq<bool>) -> Option<int>
    decreases steps.len(),
{
    if steps.len() == 0 {
        selected
    } else {
        let after = if steps[0] {
            spec_next(selected, len)
        } else {
            spec_previous(selected, len)
        };
        apply_steps(after, len, steps.drop_first())
    }
}

/// After any sequence of `next`/`previous` steps, a valid selection stays
/// valid: it is `None` or an in-range index. On a nonempty list, once at
/// least one step was taken (or something was already selected), the
/// selection is never `None`; so `None` persists only on an empty list.
pub proof fn lemma_steps_keep_selection_valid(selected: Option<int>, len: nat, steps: Seq<bool>)
    requires
        valid_selection(selected, len),
    ensures
        valid_selection(apply_steps(selected, len, steps), len),
        len > 0 && (steps.len() > 0 || selected is Some) ==> apply_steps(
            selected,
            len,
            steps,
        ) is Some,
    decreases steps.len(),
{
    if steps.len() > 0 {
        let after = if steps[0] {
            spec_next(selected, len)
        } else {
            spec_previous(selected, len)
        };
        if len > 0 {
            match selected {
                Some(i) => {
                    if steps[0] {
                        vstd::arithmetic::div_mod::lemma_mod_bound(i + 1, len as int);
                    }
                },
                None => {},
            }
        }
        lemma_steps_keep_selection_valid(after, len, steps.drop_first());
    }
}

/// The selection after `n` forward steps.
pub open spec fn apply_next_n(selected: Option<int>, len: nat, n: nat) -> Option<int>
    decreases n,
{
    if n == 0 {
        selected
    } else {
        apply_next_n(spec_next(selected, len), len, (n - 1) as nat)
    }
}

/// `n` forward steps from a selected index `j` land on `(j + n) mod len`.
pub proof fn lemma_next_n_from_selected(j: int, len: nat, n: nat)
    requires
        0 < len,
        0 <= j < len,
    ensures
        apply_next_n(Some(j), len, n) == Some((j + n) % (len as int)),
    decreases n,
{
    if n == 0 {
        vstd::arithmetic::div_mod::lemma_small_mod(j as nat, len);
    } else {
        let l = len as int;
        vstd::arithmetic::div_mod::lemma_mod_bound(j + 1, l);
        lemma_next_n_from_selected((j + 1) % l, len, (n - 1) as nat);
        assert(((j + 1) % l + (n - 1)) % l == (j + n) % l) by {
            vstd::arithmetic::div_mod::lemma_add_mod_noop((j + 1) % l, (n - 1) as int, l);
            vstd::arithmetic::div_mod::lemma_mod_twice(j + 1, l);
            vstd::arithmetic::div_mod::lemma_add_mod_noop(j + 1, (n - 1) as int, l);
        }
    }
}

/// Full cycle: on a nonempty list, calling `next` exactly `len` times from a
/// selected index returns the selection to that same index.
pub proof fn lemma_next_full_cycle(j: int, len: nat)
    requires
        0 < len,
        0 <= j < len,
    ensures
        apply_next_n(Some(j), len, len) == Some(j),
{
    lemma_next_n_from_selected(j, len, len);
    vstd::arithmetic::div_mod::lemma_mod_add_multiples_vanish(j, len as int);
    vstd::arithmetic::div_mod::lemma_small_mod(j as nat, len);
}

/// Calling `next` exactly `len` times on an unselected list lands on index
/// 0 when the list holds a single item. (On longer lists the first call
/// already selects index 0, so those `len` calls end on the last index and
/// the walk back to index 0 takes `len + 1` calls: see
/// [`lemma_next_cycle_from_none`].)
pub proof fn lemma_next_len_times_from_none(len: nat)
    requires
        len == 1,
    ensures
        apply_next_n(None, len, len) == Some(0int),
{
    assert(apply_next_n(None, len, len) == apply_next_n(Some(0int), len, 0));
}

/// From an unselected nonempty list, the first `next` selects index 0 and
/// the `len` calls after that walk the whole cycle back to index 0.
pub proof fn lemma_next_cycle_from_none(len: nat)
    requires
        0 < len,
    ensures
        apply_next_n(None, len, len + 1) == Some(0int),
{
    assert(apply_next_n(None, len, len + 1) == apply_next_n(Some(0int), len, len));
    lemma_next_full_cycle(0, len);
}

} // verus!

//! An ordered list with a single cursor that moves in a circle.

use vstd::prelude::*;
use tui::widgets::ListState;

verus! {

/// The selection state of a `tui` list widget, carried as an opaque value.
#[verifier::external_type_specification]
#[verifier::external_body]
pub struct ExListState(ListState);

/// The index that a `ListState` holds as selected, if any.
pub uninterp spec fn highlighted(state: ListState) -> Option<usize>;

/// `ListState::default`: the fresh state has nothing selected.
#[verifier::external_body]
fn fresh_state() -> (state: ListState)
    ensures
        highlighted(state) == None::<usize>,
{
    ListState::default()
}

/// `ListState::selected`: returns the stored selection.
pub assume_specification[ ListState::selected ](state: &ListState) -> (index: Option<usize>)
    ensures
        index == highlighted(*state),
;

/// `ListState::select`: stores the given selection.
pub assume_specification[ ListState::select ](state: &mut ListState, index: Option<usize>)
    ensures
        highlighted(*final(state)) == index,
;

/// Where the cursor stands after one step forward in a list of `len` items.
pub open spec fn next_index(len: nat, selected: Option<nat>) -> nat {
    match selected {
        Some(i) => if i + 1 >= len { 0 } else { i + 1 },
        None => 0,
    }
}

/// Where the cursor stands after one step back in a list of `len` items.
pub open spec fn previous_index(len: nat, selected: Option<nat>) -> nat {
    match selected {
        Some(i) => if i == 0 { (len - 1) as nat } else { (i - 1) as nat },
        None => 0,
    }
}

/// Where a cursor that is selected at `start` stands after `n` steps forward.
pub open spec fn next_times(len: nat, start: nat, n: nat) -> nat
    decreases n,
{
    if n == 0 {
        start
    } else {
        next_index(len, Some(next_times(len, start, (n - 1) as nat)))
    }
}

/// A list of items with a cursor position and a highlight.
pub struct StatefulList<T> {
    state: ListState,
    items: Vec<T>,
    curr: usize,
}

impl<T> StatefulList<T> {
    /// The items, in display order.
    pub closed spec fn items(&self) -> Seq<T> {
        self.items@
    }

    /// The index that the cursor rests on.
    pub closed spec fn cursor(&self) -> nat {
        self.curr as nat
    }

    /// The highlighted index, or `None` while nothing is selected.
    pub closed spec fn selected(&self) -> Option<nat> {
        match highlighted(self.state) {
            Some(i) => Some(i as nat),
            None => None,
        }
    }

    /// The cursor is a valid index of a non-empty list, the highlight sits on
    /// the cursor, and an empty list has neither.
    pub open spec fn wf(&self) -> bool {
        &&& self.items().len() > 0 ==> self.cursor() < self.items().len()
        &&& self.items().len() == 0 ==> self.cursor() == 0 && self.selected().is_none()
        &&& self.selected().is_some() ==> self.selected().unwrap() == self.cursor()
    }

    /// A list over `items` with nothing selected.
    pub fn with_items(items: Vec<T>) -> (list: StatefulList<T>)
        ensures
            list.wf(),
            list.items() == items@,
            list.cursor() == 0,
            list.selected().is_none(),
    {
        StatefulList { state: fresh_state(), items, curr: 0 }
    }

    /// Moves the cursor one item forward, from the last item to the first.
    /// With nothing selected it selects the first item; an empty list stays
    /// as it is.
    pub fn next(&mut self)
        requires
            old(self).wf(),
        ensures
            final(self).wf(),
            final(self).items() == old(self).items(),
            old(self).items().len() == 0 ==> final(self).cursor() == old(self).cursor()
                && final(self).selected() == old(self).selected(),
            old(self).items().len() > 0 ==> final(self).cursor() == next_index(
                old(self).items().len(),
                old(self).selected(),
            ) && final(self).selected() == Some(final(self).cursor()),
    {
        if self.items.is_empty() {
            return ;
        }
        let i: usize = match self.state.selected() {
            Some(i) => if i >= self.items.len() - 1 { 0 } else { i + 1 },
            None => 0,
        };
        self.curr = i;
        self.state.select(Some(i));
    }

    /// Moves the cursor one item back, from the first item to the last.
    /// With nothing selected it selects the first item; an empty list stays
    /// as it is.
    pub fn previous(&mut self)
        requires
            old(self).wf(),
        ensures
            final(self).wf(),
            final(self).items() == old(self).items(),
            old(self).items().len() == 0 ==> final(self).cursor() == old(self).cursor()
                && final(self).selected() == old(self).selected(),
            old(self).items().len() > 0 ==> final(self).cursor() == previous_index(
                old(self).items().len(),
                old(self).selected(),
            ) && final(self).selected() == Some(final(self).cursor()),
    {
        if self.items.is_empty() {
            return ;
        }
        let i: usize = match self.state.selected() {
            Some(i) => if i == 0 { self.items.len() - 1 } else { i - 1 },
            None => 0,
        };
        self.curr = i;
        self.state.select(Some(i));
    }

    /// Clears the highlight; the cursor keeps its place.
    pub fn unselect(&mut self)
        requires
            old(self).wf(),
        ensures
            final(self).wf(),
            final(self).items() == old(self).items(),
            final(self).cursor() == old(self).cursor(),
            final(self).selected().is_none(),
    {
        self.state.select(None);
    }

    /// Appends `item`; cursor and highlight stay.
    pub fn add(&mut self, item: T)
        requires
            old(self).wf(),
        ensures
            final(self).wf(),
            final(self).items() == old(self).items().push(item),
            final(self).cursor() == old(self).cursor(),
            final(self).selected() == old(self).selected(),
    {
        self.items.push(item);
    }

    /// Takes the item under the cursor out of the list and returns it, or
    /// returns `None` for an empty list. Taking the only item clears the
    /// highlight. Taking the last of several moves the cursor one up and
    /// highlights it. Anywhere else cursor and highlight keep their index,
    /// which then holds the next item.
    pub fn take(&mut self) -> (taken: Option<T>)
        requires
            old(self).wf(),
        ensures
            final(self).wf(),
            old(self).items().len() == 0 ==> taken.is_none() && final(self).items() == old(self).items() && final(self).cursor() == old(self).cursor() && final(self).selected()
                == old(self).selected(),
            old(self).items().len() > 0 ==> taken == Some(
                old(self).items()[old(self).cursor() as int],
            ) && final(self).items() == old(self).items().remove(old(self).cursor() as int),
            old(self).items().len() == 1 ==> final(self).cursor() == 0
                && final(self).selected().is_none(),
            old(self).items().len() >= 2 && old(self).cursor() == old(self).items().len() - 1
                ==> final(self).cursor() == old(self).cursor() - 1 && final(self).selected()
                == Some(final(self).cursor()),
            old(self).items().len() >= 2 && old(self).cursor() < old(self).items().len() - 1
                ==> final(self).cursor() == old(self).cursor() && final(self).selected()
                == old(self).selected(),
    {
        let len: usize = self.items.len();
        if len == 0 {
            None
        } else if len == 1 {
            let item = self.items.remove(self.curr);
            self.state.select(None);
            Some(item)
        } else if self.curr >= len - 1 {
            let item = self.items.remove(self.curr);
            self.curr = self.curr - 1;
            self.state.select(Some(self.curr));
            Some(item)
        } else {
            let item = self.items.remove(self.curr);
            Some(item)
        }
    }

    /// Removes the item under the cursor, as `take` does, and drops it.
    pub fn remove(&mut self)
        requires
            old(self).wf(),
        ensures
            final(self).wf(),
            old(self).items().len() == 0 ==> final(self).items() == old(self).items()
                && final(self).cursor() == old(self).cursor() && final(self).selected() == old(self).selected(),
            old(self).items().len() > 0 ==> final(self).items() == old(self).items().remove(
                old(self).cursor() as int,
            ),
            old(self).items().len() == 1 ==> final(self).items().len() == 0 && final(self).cursor() == 0 && final(self).selected().is_none(),
            old(self).items().len() >= 2 && old(self).cursor() == old(self).items().len() - 1
                ==> final(self).cursor() == old(self).cursor() - 1 && final(self).cursor()
                < final(self).items().len() && final(self).selected() == Some(
                final(self).cursor(),
            ),
            old(self).items().len() >= 2 && old(self).cursor() < old(self).items().len() - 1
                ==> final(self).cursor() == old(self).cursor() && final(self).selected()
                == old(self).selected(),
    {
        let _ = self.take();
    }

    /// All items, in order.
    pub fn get_items(&self) -> (items: &Vec<T>)
        ensures
            items@ == self.items(),
    {
        &self.items
    }

    /// The item under the cursor. The list must hold one.
    pub fn get_item(&self) -> (item: &T)
        requires
            self.wf(),
            self.items().len() > 0,
        ensures
            *item == self.items()[self.cursor() as int],
    {
        &self.items[self.curr]
    }

    /// Whether the list holds no item.
    pub fn is_empty(&self) -> (empty: bool)
        ensures
            empty <==> self.items().len() == 0,
    {
        self.items.is_empty()
    }

    /// The highlighted index, if any.
    pub fn selected_index(&self) -> (index: Option<usize>)
        ensures
            index.is_some() == self.selected().is_some(),
            index.is_some() ==> index.unwrap() == self.selected().unwrap(),
    {
        self.state.selected()
    }
}

/// Within one lap, `n` steps forward from `start` reach `start + n`, wrapped
/// once at the end of the list.
proof fn lemma_next_times_within_lap(len: nat, start: nat, n: nat)
    requires
        start < len,
        n <= len,
    ensures
        next_times(len, start, n) == if start + n < len {
            start + n
        } else {
            (start + n - len) as nat
        },
    decreases n,
{
    if n > 0 {
        lemma_next_times_within_lap(len, start, (n - 1) as nat);
    }
}

/// Circularity: in a non-empty list with a selection, as many steps forward
/// as the list has items bring the cursor back to where it started.
pub proof fn lemma_next_full_lap(len: nat, start: nat)
    requires
        start < len,
    ensures
        next_times(len, start, len) == start,
{
    lemma_next_times_within_lap(len, start, len);
}

/// In a non-empty list with a selection, a step back undoes a step forward.
pub proof fn lemma_previous_undoes_next(len: nat, start: nat)
    requires
        start < len,
    ensures
        previous_index(len, Some(next_index(len, Some(start)))) == start,
{
}

/// In a non-empty list with a selection, a step forward undoes a step back.
pub proof fn lemma_next_undoes_previous(len: nat, start: nat)
    requires
        start < len,
    ensures
        next_index(len, Some(previous_index(len, Some(start)))) == start,
{
}

} // verus!

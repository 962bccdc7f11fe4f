//! The tracks that wait to be played.

use vstd::prelude::*;
use crate::stateful_list::{next_index, previous_index, StatefulList};

verus! {

/// Pending tracks, by path, in the order in which they were added. The
/// cursor of the list is also the place from which the next track is taken.
pub struct Queue {
    list: StatefulList<String>,
}

impl Queue {
    /// The queued paths, in order.
    pub closed spec fn items(&self) -> Seq<String> {
        self.list.items()
    }

    /// The index that the cursor rests on.
    pub closed spec fn cursor(&self) -> nat {
        self.list.cursor()
    }

    /// The highlighted index, or `None` while nothing is selected.
    pub closed spec fn selected(&self) -> Option<nat> {
        self.list.selected()
    }

    /// The cursor is a valid index of a non-empty queue, the highlight sits
    /// on the cursor, and an empty queue has neither.
    pub open spec fn wf(&self) -> bool {
        &&& self.items().len() > 0 ==> self.cursor() < self.items().len()
        &&& self.items().len() == 0 ==> self.cursor() == 0 && self.selected().is_none()
        &&& self.selected().is_some() ==> self.selected().unwrap() == self.cursor()
    }

    /// How `after` and the track handed out follow from `before` when the
    /// track under the cursor is taken: nothing from an empty queue; else
    /// that track leaves, taking the only one clears the highlight, taking
    /// the last of several moves the cursor one up and highlights it, and
    /// anywhere else cursor and highlight keep their index.
    pub open spec fn popped(before: Queue, after: Queue, track: Option<String>) -> bool {
        let len = before.items().len();
        let at = before.cursor();
        &&& len == 0 ==> track.is_none() && after.items() == before.items() && after.cursor()
            == at && after.selected() == before.selected()
        &&& len > 0 ==> track == Some(before.items()[at as int]) && after.items()
            == before.items().remove(at as int)
        &&& len == 1 ==> after.cursor() == 0 && after.selected().is_none()
        &&& len >= 2 && at == len - 1 ==> after.cursor() == at - 1 && after.selected() == Some(
            after.cursor(),
        )
        &&& len >= 2 && at < len - 1 ==> after.cursor() == at && after.selected()
            == before.selected()
    }

    /// First in, first out: while the cursor rests on the front, taking a
    /// track hands out the front, leaves the rest in order and leaves the
    /// cursor on the front.
    pub proof fn lemma_pop_takes_front(before: Queue, after: Queue, track: Option<String>)
        requires
            before.items().len() > 0,
            before.cursor() == 0,
            Queue::popped(before, after, track),
        ensures
            track == Some(before.items()[0]),
            after.items() == before.items().drop_first(),
            after.cursor() == 0,
    {
        assert(before.items().remove(0) =~= before.items().drop_first());
    }

    /// A queue over `items` with nothing selected.
    pub fn with_items(items: Vec<String>) -> (queue: Queue)
        ensures
            queue.wf(),
            queue.items() == items@,
            queue.cursor() == 0,
            queue.selected().is_none(),
    {
        Queue { list: StatefulList::with_items(items) }
    }

    /// Appends a track; cursor and highlight stay.
    pub fn add(&mut self, item: String)
        requires
            old(self).wf(),
        ensures
            final(self).wf(),
            final(self).items() == old(self).items().push(item),
            final(self).cursor() == old(self).cursor(),
            final(self).selected() == old(self).selected(),
    {
        self.list.add(item);
    }

    /// Moves the cursor one track forward, in a circle.
    pub fn next(&mut self)
        requires
            old(self).wf(),
        ensures
            final(self).wf(),
            final(self).items() == old(self).items(),
            old(self).items().len() == 0 ==> final(self).cursor() == old(self).cursor()
                && final(self).selected() == old(self).selected(),
            old(self).items().len() > 0 ==> final(self).cursor() == next_index(
                old(self).items().len(),
                old(self).selected(),
            ) && final(self).selected() == Some(final(self).cursor()),
    {
        self.list.next();
    }

    /// Moves the cursor one track back, in a circle.
    pub fn previous(&mut self)
        requires
            old(self).wf(),
        ensures
            final(self).wf(),
            final(self).items() == old(self).items(),
            old(self).items().len() == 0 ==> final(self).cursor() == old(self).cursor()
                && final(self).selected() == old(self).selected(),
            old(self).items().len() > 0 ==> final(self).cursor() == previous_index(
                old(self).items().len(),
                old(self).selected(),
            ) && final(self).selected() == Some(final(self).cursor()),
    {
        self.list.previous();
    }

    /// Takes the track under the cursor out of the queue and returns it, or
    /// returns `None` for an empty queue. While nobody has moved the cursor
    /// it rests on the front, so the tracks leave in the order in which
    /// they came.
    pub fn pop(&mut self) -> (track: Option<String>)
        requires
            old(self).wf(),
        ensures
            final(self).wf(),
            Queue::popped(*old(self), *final(self), track),
    {
        self.list.take()
    }

    /// Removes the track under the cursor, as `pop` does, and drops it.
    pub fn remove(&mut self)
        requires
            old(self).wf(),
        ensures
            final(self).wf(),
            old(self).items().len() == 0 ==> final(self).items() == old(self).items()
                && final(self).cursor() == old(self).cursor() && final(self).selected() == old(
                self).selected(),
            old(self).items().len() > 0 ==> final(self).items() == old(self).items().remove(
                old(self).cursor() as int,
            ),
            old(self).items().len() == 1 ==> final(self).cursor() == 0
                && final(self).selected().is_none(),
            old(self).items().len() >= 2 && old(self).cursor() == old(self).items().len() - 1
                ==> final(self).cursor() == old(self).cursor() - 1 && final(self).selected()
                == Some(final(self).cursor()),
            old(self).items().len() >= 2 && old(self).cursor() < old(self).items().len() - 1
                ==> final(self).cursor() == old(self).cursor() && final(self).selected()
                == old(self).selected(),
    {
        self.list.remove();
    }

    /// All queued tracks, in order.
    pub fn get_items(&self) -> (items: &Vec<String>)
        ensures
            items@ == self.items(),
    {
        self.list.get_items()
    }

    /// The track under the cursor. The queue must hold one.
    pub fn get_item(&self) -> (item: &String)
        requires
            self.wf(),
            self.items().len() > 0,
        ensures
            *item == self.items()[self.cursor() as int],
    {
        self.list.get_item()
    }

    /// Whether no track is queued.
    pub fn is_empty(&self) -> (empty: bool)
        ensures
            empty <==> self.items().len() == 0,
    {
        self.list.is_empty()
    }

    /// The highlighted index, if any.
    pub fn selected_index(&self) -> (index: Option<usize>)
        ensures
            index.is_some() == self.selected().is_some(),
            index.is_some() ==> index.unwrap() == self.selected().unwrap(),
    {
        self.list.selected_index()
    }
}

} // verus!

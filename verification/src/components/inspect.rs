//! The developer inspection panel's histories: the recent frame times and
//! the recent UI output events, each keeping only its newest entries.

use std::collections::VecDeque;
use vstd::prelude::*;

verus! {

/// How many frame times the performance view keeps.
pub const FRAME_HISTORY_LEN: usize = 120;

/// How many output events the events view keeps.
pub const OUTPUT_EVENTS_LEN: usize = 32;

/// The entries a history holds after `item` is recorded into `items`: when
/// the history is full (and not empty) the oldest entry goes first.
pub open spec fn recorded<T>(items: Seq<T>, cap: usize, item: T) -> Seq<T> {
    if items.len() >= cap && items.len() > 0 {
        items.drop_first().push(item)
    } else {
        items.push(item)
    }
}

/// A history keeping the newest `cap` entries, oldest first.
pub struct History<T> {
    items: VecDeque<T>,
    cap: usize,
}

impl<T> History<T> {
    pub closed spec fn items_view(&self) -> Seq<T> {
        self.items@
    }

    pub closed spec fn cap_view(&self) -> usize {
        self.cap
    }

    /// An empty history keeping up to `cap` entries.
    pub fn new(cap: usize) -> (history: Self)
        ensures
            history.items_view().len() == 0,
            history.cap_view() == cap,
    {
        History { items: VecDeque::new(), cap }
    }

    /// Appends `item`, dropping the oldest entry when the history is full.
    pub fn record(&mut self, item: T)
        ensures
            final(self).items_view() == recorded(old(self).items_view(), old(self).cap_view(), item),
            final(self).cap_view() == old(self).cap_view(),
    {
        if self.items.len() >= self.cap && self.items.len() > 0 {
            let _ = self.items.pop_front();
        }
        self.items.push_back(item);
    }

    /// Drops every entry.
    pub fn clear(&mut self)
        ensures
            final(self).items_view().len() == 0,
            final(self).cap_view() == old(self).cap_view(),
    {
        self.items.clear();
    }

    pub fn len(&self) -> (len: usize)
        ensures
            len == self.items_view().len(),
    {
        self.items.len()
    }

    pub fn is_empty(&self) -> (empty: bool)
        ensures
            empty == (self.items_view().len() == 0),
    {
        self.items.len() == 0
    }

    /// The entries, oldest first.
    pub fn items(&self) -> (items: &VecDeque<T>)
        ensures
            items@ == self.items_view(),
    {
        &self.items
    }
}

/// Recording into a history within its capacity keeps it within the
/// capacity, puts the new entry last, and drops nothing while there is room.
pub proof fn lemma_record_bounded<T>(items: Seq<T>, cap: usize, item: T)
    requires
        cap > 0,
        items.len() <= cap,
    ensures
        recorded(items, cap, item).len() <= cap,
        recorded(items, cap, item).last() == item,
        items.len() < cap ==> recorded(items, cap, item) == items.push(item),
{
}

} // verus!

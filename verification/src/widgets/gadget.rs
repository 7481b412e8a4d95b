//! A list that shows one item at a time, and a list with one item selected.
//!
//! Time comes in as a reading of a monotonic clock in nanoseconds.

use vstd::prelude::*;

verus! {

/// A list whose items are shown in turn, each for a set time.
#[derive(Debug)]
pub struct Carousel<T> {
    inner: Vec<T>,
    duration: u64,
    index: usize,
    last_time: u64,
}

impl<T> Carousel<T> {
    #[verifier::type_invariant]
    spec fn well_formed(self) -> bool {
        self.inner@.len() > 0
    }

    pub closed spec fn items(&self) -> Seq<T> {
        self.inner@
    }

    /// How often the carousel moved on.
    pub closed spec fn turns(&self) -> usize {
        self.index
    }

    /// The clock reading at the last move.
    pub closed spec fn moved_at(&self) -> u64 {
        self.last_time
    }

    /// The time for which each item shows, in nanoseconds.
    pub closed spec fn period(&self) -> u64 {
        self.duration
    }

    /// The item on show.
    pub open spec fn shown(&self) -> T {
        self.items()[self.turns() as int % self.items().len() as int]
    }

    /// A carousel over `inner`, which must not be empty, that starts at `now`
    /// with the first item.
    pub fn new(inner: Vec<T>, duration: u64, now: u64) -> (r: Self)
        requires
            inner@.len() > 0,
        ensures
            r.items() == inner@,
            r.period() == duration,
            r.turns() == 0,
            r.moved_at() == now,
    {
        Carousel { inner, duration, index: 0, last_time: now }
    }

    /// The item to show at `now`: the next one if the one on show has had its
    /// time, counted from the last move.
    pub fn tick(&mut self, now: u64) -> (r: &T)
        ensures
            final(self).items() == old(self).items(),
            final(self).period() == old(self).period(),
            now >= old(self).moved_at() && now - old(self).moved_at() >= old(self).period() ==> {
                &&& final(self).moved_at() == now
                &&& final(self).turns() == if old(self).turns() == usize::MAX {
                    0
                } else {
                    old(self).turns() + 1
                }
            },
            !(now >= old(self).moved_at() && now - old(self).moved_at() >= old(self).period())
                ==> {
                &&& final(self).moved_at() == old(self).moved_at()
                &&& final(self).turns() == old(self).turns()
            },
            *r == final(self).shown(),
    {
        proof {
            use_type_invariant(&*self);
        }
        if now >= self.last_time && now - self.last_time >= self.duration {
            self.last_time = now;
            self.index = if self.index == usize::MAX {
                0
            } else {
                self.index + 1
            };
        }
        let len = self.inner.len();
        &self.inner[self.index % len]
    }

    /// The item on show.
    pub fn current(&self) -> (r: &T)
        ensures
            *r == self.shown(),
    {
        proof {
            use_type_invariant(self);
        }
        &self.inner[self.index % self.inner.len()]
    }
}

/// A list with one item selected.
#[derive(Debug)]
pub struct Select<T> {
    inner: Vec<T>,
    selected: usize,
}

impl<T> Select<T> {
    #[verifier::type_invariant]
    spec fn well_formed(self) -> bool {
        self.selected < self.inner@.len()
    }

    pub closed spec fn items(&self) -> Seq<T> {
        self.inner@
    }

    pub closed spec fn chosen(&self) -> usize {
        self.selected
    }

    /// A selection over `inner`, which must not be empty, with the first item selected.
    pub fn new(inner: Vec<T>) -> (r: Self)
        requires
            inner@.len() > 0,
        ensures
            r.items() == inner@,
            r.chosen() == 0,
    {
        Select { inner, selected: 0 }
    }

    /// Selects item `idx`, counted round the list, and answers with the item
    /// that was selected before.
    pub fn select(&mut self, idx: usize) -> (r: usize)
        ensures
            final(self).items() == old(self).items(),
            final(self).chosen() == idx as int % old(self).items().len() as int,
            r == old(self).chosen(),
    {
        proof {
            use_type_invariant(&*self);
        }
        let before = self.selected;
        self.selected = idx % self.inner.len();
        before
    }

    /// The position of the selected item.
    pub fn index(&self) -> (r: usize)
        ensures
            r == self.chosen(),
            r < self.items().len(),
    {
        proof {
            use_type_invariant(self);
        }
        self.selected
    }

    /// The selected item.
    pub fn current(&self) -> (r: &T)
        ensures
            *r == self.items()[self.chosen() as int],
    {
        proof {
            use_type_invariant(self);
        }
        &self.inner[self.selected]
    }
}

} // verus!

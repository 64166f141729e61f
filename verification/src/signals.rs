//! Read access to the signal listings of a report.

use crate::signal::Signal;
use vstd::prelude::*;

verus! {

/// A report's list of publisher signals for one severity, each paired with
/// the number of publishers currently reporting it.
#[derive(Debug)]
pub struct Signals<'a> {
    pub items: &'a [(Signal, usize)],
}

impl<'a> Signals<'a> {
    /// Wrap a signal listing.
    pub fn new(messages: &'a [(Signal, usize)]) -> (s: Self)
        ensures
            s.items == messages,
    {
        Signals { items: messages }
    }

    /// The number of distinct signals in the listing.
    pub fn len(&self) -> (n: usize)
        ensures
            n == self.items@.len(),
    {
        self.items.len()
    }

    /// Whether the listing holds no signal.
    pub fn is_empty(&self) -> (r: bool)
        ensures
            r == (self.items@.len() == 0),
    {
        self.items.len() == 0
    }

    /// The signal at the given position, with its multiplicity.
    pub fn get(&self, i: usize) -> (e: (Signal, usize))
        requires
            i < self.items@.len(),
        ensures
            e.0@ == self.items@[i as int].0@,
            e.1 == self.items@[i as int].1,
    {
        let pair = &self.items[i];
        (pair.0.clone(), pair.1)
    }
}

impl<'a> Clone for Signals<'a> {
    /// The clone reads the same listing.
    fn clone(&self) -> (r: Self)
        ensures
            r.items == self.items,
    {
        Signals { items: self.items }
    }
}

} // verus!

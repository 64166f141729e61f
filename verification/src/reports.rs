//! Read access to a collection of per-component reports.

use crate::report::Report;
use vstd::prelude::*;

verus! {

/// A collection of component reports, one per live component, as gathered by
/// the aggregator.
#[derive(Debug)]
pub struct Reports {
    pub items: Vec<Report>,
}

impl Reports {
    /// Wrap a collection of reports.
    pub fn new(reports: Vec<Report>) -> (r: Self)
        ensures
            r.items == reports,
    {
        Reports { items: reports }
    }

    /// The number of reports in the collection.
    pub fn len(&self) -> (n: usize)
        ensures
            n == self.items@.len(),
    {
        self.items.len()
    }

    /// Whether the collection holds no report.
    pub fn is_empty(&self) -> (r: bool)
        ensures
            r == (self.items@.len() == 0),
    {
        self.items.len() == 0
    }

    /// The report at the given position.
    pub fn get(&self, i: usize) -> (r: Report)
        requires
            i < self.items@.len(),
        ensures
            r@ == self.items@[i as int]@,
            r.wf() == self.items@[i as int].wf(),
    {
        self.items[i].clone()
    }
}

impl Clone for Reports {
    /// The clone holds reports with the same content, in the same order.
    fn clone(&self) -> (r: Self)
        ensures
            r.items@.len() == self.items@.len(),
            forall|i: int|
                0 <= i < self.items@.len() ==> #[trigger] r.items@[i]@ == self.items@[i]@,
    {
        let mut items: Vec<Report> = Vec::new();
        let mut i: usize = 0;
        while i < self.items.len()
            invariant
                0 <= i <= self.items@.len(),
                items@.len() == i,
                forall|j: int| 0 <= j < i ==> #[trigger] items@[j]@ == self.items@[j]@,
            decreases self.items@.len() - i,
        {
            items.push(self.items[i].clone());
            i += 1;
        }
        Reports { items }
    }
}

} // verus!

//! Snapshots of one component's health.

use crate::health::Health;
use crate::signal::{Signal, SignalView};
use crate::signals::Signals;
use vstd::prelude::*;

verus! {

/// The views of one severity's signal listing: each signal's content paired
/// with its multiplicity.
pub open spec fn bucket_views(s: Seq<(Signal, usize)>) -> Seq<(SignalView, int)> {
    s.map_values(|e: (Signal, usize)| (e.0@, e.1 as int))
}

/// The health of a single application component.
///
/// A component's health is determined by combining the data from the
/// component's active publishers: `state` is the most severe health state any
/// of them reports, `counts` says how many publisher signals sit at each
/// severity, and `signals` lists the signals themselves for the severities
/// the report's filter selected.
#[derive(Debug)]
pub struct Report {
    pub name: String,
    pub state: Health,
    pub counts: Vec<usize>,
    pub signals: Vec<Vec<(Signal, usize)>>,
}

/// The mathematical content of a [`Report`].
#[verifier::ext_equal]
pub struct ReportView {
    pub name: Seq<char>,
    pub state: Health,
    pub counts: Seq<usize>,
    pub signals: Seq<Seq<(SignalView, int)>>,
}

impl View for Report {
    type V = ReportView;

    open spec fn view(&self) -> ReportView {
        ReportView {
            name: self.name@,
            state: self.state,
            counts: self.counts@,
            signals: self.signals@.map_values(|b: Vec<(Signal, usize)>| bucket_views(b@)),
        }
    }
}

impl Report {
    /// Well-formed reports list one count and one signal bucket per severity.
    pub open spec fn wf(&self) -> bool {
        self.counts@.len() == 5 && self.signals@.len() == 5
    }

    /// The name of the component.
    pub fn name(&self) -> (r: &str)
        ensures
            r@ == self@.name,
    {
        self.name.as_str()
    }

    /// The overall health of the component: the most severe health state
    /// reported by any active publisher.
    pub fn state(&self) -> (h: Health)
        ensures
            h == self@.state,
    {
        self.state
    }

    /// The number of active publisher signals in the given health state.
    pub fn signal_count(&self, state: Health) -> (n: usize)
        requires
            self.wf(),
        ensures
            n == self@.counts[state.severity()],
    {
        self.counts[state.index()]
    }

    /// The active publisher signals in the given health state, along with how
    /// many publishers report each.
    pub fn signals(&self, state: Health) -> (s: Signals<'_>)
        requires
            self.wf(),
        ensures
            bucket_views(s.items@) == self@.signals[state.severity()],
    {
        Signals::new(self.signals[state.index()].as_slice())
    }
}

/// Copy one severity's signal listing.
pub fn clone_bucket(b: &Vec<(Signal, usize)>) -> (r: Vec<(Signal, usize)>)
    ensures
        bucket_views(r@) == bucket_views(b@),
{
    let mut out: Vec<(Signal, usize)> = Vec::new();
    let mut i: usize = 0;
    while i < b.len()
        invariant
            0 <= i <= b@.len(),
            out@.len() == i,
            forall|j: int|
                0 <= j < i ==> out@[j].0@ == b@[j].0@ && out@[j].1 == b@[j].1,
        decreases b@.len() - i,
    {
        let pair = &b[i];
        out.push((pair.0.clone(), pair.1));
        i += 1;
    }
    assert(bucket_views(out@) =~= bucket_views(b@));
    out
}

/// Copy a vector of per-severity counts.
pub(crate) fn clone_counts(c: &Vec<usize>) -> (r: Vec<usize>)
    ensures
        r@ == c@,
{
    let mut out: Vec<usize> = Vec::new();
    let mut i: usize = 0;
    while i < c.len()
        invariant
            0 <= i <= c@.len(),
            out@ == c@.take(i as int),
        decreases c@.len() - i,
    {
        out.push(c[i]);
        assert(out@ =~= c@.take(i + 1int));
        i += 1;
    }
    assert(c@.take(c@.len() as int) =~= c@);
    out
}

impl Clone for Report {
    /// The clone carries the same content as the original.
    fn clone(&self) -> (r: Self)
        ensures
            r@ == self@,
            r.wf() == self.wf(),
    {
        let mut signals: Vec<Vec<(Signal, usize)>> = Vec::new();
        let mut i: usize = 0;
        while i < self.signals.len()
            invariant
                0 <= i <= self.signals@.len(),
                signals@.len() == i,
                forall|j: int|
                    0 <= j < i ==> bucket_views(#[trigger] signals@[j]@) == bucket_views(
                        self.signals@[j]@,
                    ),
            decreases self.signals@.len() - i,
        {
            signals.push(clone_bucket(&self.signals[i]));
            i += 1;
        }
        let r = Report {
            name: self.name.clone(),
            state: self.state,
            counts: clone_counts(&self.counts),
            signals,
        };
        assert(r@.signals =~= self@.signals);
        assert(r@ =~= self@);
        r
    }
}

} // verus!

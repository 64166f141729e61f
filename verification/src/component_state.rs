//! Per-component bookkeeping: which signals its publishers currently emit,
//! with what multiplicity, and the aggregate severity they imply.

use crate::filter::Filter;
use crate::health::Health;
use crate::report::{bucket_views, clone_bucket, clone_counts, Report};
use crate::signal::{Signal, SignalView};
use vstd::prelude::*;

verus! {

/// The sum of the multiplicities in one severity's signal bucket.
pub open spec fn bucket_total(s: Seq<(Signal, usize)>) -> int
    decreases s.len(),
{
    if s.len() == 0 {
        0
    } else {
        bucket_total(s.drop_last()) + s.last().1
    }
}

/// The multiplicity the bucket records for the given signal content.
pub open spec fn bucket_mult(s: Seq<(Signal, usize)>, k: SignalView) -> int
    decreases s.len(),
{
    if s.len() == 0 {
        0
    } else {
        bucket_mult(s.drop_last(), k) + if s.last().0@ == k {
            s.last().1 as int
        } else {
            0
        }
    }
}

/// Whether the bucket holds an entry for the given signal content.
pub open spec fn bucket_has(s: Seq<(Signal, usize)>, k: SignalView) -> bool {
    exists|i: int| 0 <= i < s.len() && s[i].0@ == k
}

/// Whether the bucket's entries carry pairwise distinct signals.
pub open spec fn bucket_distinct(s: Seq<(Signal, usize)>) -> bool {
    forall|i: int, j: int| 0 <= i < j < s.len() ==> s[i].0@ != s[j].0@
}

/// A valid bucket for severity `sev`: distinct signals, positive
/// multiplicities, and every signal at exactly that severity.
pub open spec fn bucket_wf(s: Seq<(Signal, usize)>, sev: int) -> bool {
    &&& bucket_distinct(s)
    &&& forall|i: int| 0 <= i < s.len() ==> (#[trigger] s[i]).1 >= 1
    &&& forall|i: int| 0 <= i < s.len() ==> (#[trigger] s[i]).0@.state.severity() == sev
}

/// A bucket's total multiplicity is never negative.
pub proof fn lemma_bucket_total_nonneg(s: Seq<(Signal, usize)>)
    ensures
        bucket_total(s) >= 0,
    decreases s.len(),
{
    if s.len() > 0 {
        lemma_bucket_total_nonneg(s.drop_last());
    }
}

/// No single entry exceeds the bucket's total multiplicity.
pub proof fn lemma_bucket_entry_le_total(s: Seq<(Signal, usize)>, j: int)
    requires
        0 <= j < s.len(),
    ensures
        s[j].1 <= bucket_total(s),
    decreases s.len(),
{
    if j == s.len() - 1 {
        lemma_bucket_total_nonneg(s.drop_last());
    } else {
        lemma_bucket_entry_le_total(s.drop_last(), j);
    }
}

/// A signal the bucket has no entry for has multiplicity zero.
pub proof fn lemma_bucket_mult_absent(s: Seq<(Signal, usize)>, k: SignalView)
    requires
        !bucket_has(s, k),
    ensures
        bucket_mult(s, k) == 0,
    decreases s.len(),
{
    if s.len() > 0 {
        assert(!bucket_has(s.drop_last(), k)) by {
            if bucket_has(s.drop_last(), k) {
                let i = choose|i: int|
                    0 <= i < s.drop_last().len() && s.drop_last()[i].0@ == k;
                assert(s[i].0@ == k);
            }
        }
        lemma_bucket_mult_absent(s.drop_last(), k);
        assert(s[s.len() - 1].0@ != k);
    }
}

/// In a bucket of distinct signals, an entry's multiplicity is exactly what
/// the bucket records for its signal.
pub proof fn lemma_bucket_mult_entry(s: Seq<(Signal, usize)>, j: int)
    requires
        0 <= j < s.len(),
        bucket_distinct(s),
    ensures
        bucket_mult(s, s[j].0@) == s[j].1,
    decreases s.len(),
{
    let k = s[j].0@;
    if j == s.len() - 1 {
        assert(!bucket_has(s.drop_last(), k)) by {
            if bucket_has(s.drop_last(), k) {
                let i = choose|i: int|
                    0 <= i < s.drop_last().len() && s.drop_last()[i].0@ == k;
                assert(s[i].0@ == s[j].0@);
            }
        }
        lemma_bucket_mult_absent(s.drop_last(), k);
    } else {
        assert(bucket_distinct(s.drop_last()));
        lemma_bucket_mult_entry(s.drop_last(), j);
        assert(s[s.len() - 1].0@ != k);
    }
}

/// How appending an entry changes a bucket's totals.
pub proof fn lemma_bucket_push(s: Seq<(Signal, usize)>, e: (Signal, usize))
    ensures
        bucket_total(s.push(e)) == bucket_total(s) + e.1,
        forall|k: SignalView| #[trigger]
            bucket_mult(s.push(e), k) == bucket_mult(s, k) + if e.0@ == k {
                e.1 as int
            } else {
                0
            },
{
    assert(s.push(e).drop_last() =~= s);
    assert(s.push(e).last() == e);
}

/// How replacing the entry at `j` changes a bucket's totals.
pub proof fn lemma_bucket_update(s: Seq<(Signal, usize)>, j: int, e: (Signal, usize))
    requires
        0 <= j < s.len(),
    ensures
        bucket_total(s.update(j, e)) == bucket_total(s) - s[j].1 + e.1,
        forall|k: SignalView| #[trigger]
            bucket_mult(s.update(j, e), k) == bucket_mult(s, k) - (if s[j].0@ == k {
                s[j].1 as int
            } else {
                0
            }) + (if e.0@ == k {
                e.1 as int
            } else {
                0
            }),
    decreases s.len(),
{
    let r = s.update(j, e);
    if j == s.len() - 1 {
        assert(r.drop_last() =~= s.drop_last());
        assert(r.last() == e);
    } else {
        assert(r.drop_last() =~= s.drop_last().update(j, e));
        assert(r.last() == s.last());
        lemma_bucket_update(s.drop_last(), j, e);
        assert(s.drop_last()[j] == s[j]);
        assert forall|k: SignalView| #[trigger]
            bucket_mult(r, k) == bucket_mult(s, k) - (if s[j].0@ == k {
                s[j].1 as int
            } else {
                0
            }) + (if e.0@ == k {
                e.1 as int
            } else {
                0
            }) by {
            assert(bucket_mult(r, k) == bucket_mult(r.drop_last(), k) + if r.last().0@ == k {
                r.last().1 as int
            } else {
                0
            });
            assert(bucket_mult(s, k) == bucket_mult(s.drop_last(), k) + if s.last().0@ == k {
                s.last().1 as int
            } else {
                0
            });
        }
    }
}

/// How removing the entry at `j` changes a bucket's totals.
pub proof fn lemma_bucket_remove(s: Seq<(Signal, usize)>, j: int)
    requires
        0 <= j < s.len(),
    ensures
        bucket_total(s.remove(j)) == bucket_total(s) - s[j].1,
        forall|k: SignalView| #[trigger]
            bucket_mult(s.remove(j), k) == bucket_mult(s, k) - if s[j].0@ == k {
                s[j].1 as int
            } else {
                0
            },
    decreases s.len(),
{
    let r = s.remove(j);
    if j == s.len() - 1 {
        assert(r =~= s.drop_last());
    } else {
        assert(r.drop_last() =~= s.drop_last().remove(j));
        assert(r.last() == s.last());
        lemma_bucket_remove(s.drop_last(), j);
        assert(s.drop_last()[j] == s[j]);
        assert forall|k: SignalView| #[trigger]
            bucket_mult(r, k) == bucket_mult(s, k) - (if s[j].0@ == k {
                s[j].1 as int
            } else {
                0
            }) by {
            assert(bucket_mult(r, k) == bucket_mult(r.drop_last(), k) + if r.last().0@ == k {
                r.last().1 as int
            } else {
                0
            });
            assert(bucket_mult(s, k) == bucket_mult(s.drop_last(), k) + if s.last().0@ == k {
                s.last().1 as int
            } else {
                0
            });
        }
    }
}

/// Find the entry recording the given signal, if any.
fn find_signal(map: &Vec<(Signal, usize)>, key: &Signal) -> (o: Option<usize>)
    ensures
        match o {
            Some(j) => j < map@.len() && map@[j as int].0@ == key@,
            None => !bucket_has(map@, key@),
        },
{
    let mut i: usize = 0;
    while i < map.len()
        invariant
            0 <= i <= map@.len(),
            forall|j: int| 0 <= j < i ==> map@[j].0@ != key@,
        decreases map@.len() - i,
    {
        if map[i].0 == *key {
            return Some(i);
        }
        i += 1;
    }
    None
}

/// Decrement the multiplicity recorded for `key`, removing the entry when it
/// reaches zero; a key with no entry leaves the bucket unchanged.
pub fn dec_or_remove(map: &mut Vec<(Signal, usize)>, key: Signal)
    requires
        bucket_distinct(old(map)@),
        forall|i: int| 0 <= i < old(map)@.len() ==> (#[trigger] old(map)@[i]).1 >= 1,
    ensures
        bucket_distinct(final(map)@),
        forall|i: int| 0 <= i < final(map)@.len() ==> (#[trigger] final(map)@[i]).1 >= 1,
        forall|i: int|
            #![trigger final(map)@[i]]
            0 <= i < final(map)@.len() ==> exists|j: int|
                0 <= j < old(map)@.len() && final(map)@[i].0@ == old(map)@[j].0@,
        forall|k: SignalView|
            k != key@ ==> #[trigger] bucket_mult(final(map)@, k) == bucket_mult(old(map)@, k),
        bucket_has(old(map)@, key@) ==> bucket_mult(final(map)@, key@) == bucket_mult(
            old(map)@,
            key@,
        ) - 1,
        !bucket_has(old(map)@, key@) ==> final(map)@ == old(map)@,
        bucket_total(final(map)@) == bucket_total(old(map)@) - if bucket_has(old(map)@, key@) {
            1int
        } else {
            0
        },
{
    let ghost m0 = map@;
    match find_signal(map, &key) {
        None => {
            proof {
                lemma_bucket_mult_absent(m0, key@);
            }
        },
        Some(j) => {
            let m = map[j].1;
            if m == 1 {
                let _ = map.remove(j);
                proof {
                    lemma_bucket_remove(m0, j as int);
                    assert forall|i: int|
                        #![trigger final(map)@[i]]
                        0 <= i < map@.len() implies exists|jj: int|
                        0 <= jj < m0.len() && map@[i].0@ == m0[jj].0@ by {
                        if i < j {
                            assert(map@[i] == m0[i]);
                        } else {
                            assert(map@[i] == m0[i + 1]);
                        }
                    }
                }
            } else {
                map[j] = (key, m - 1);
                proof {
                    lemma_bucket_update(m0, j as int, (map@[j as int].0, (m - 1) as usize));
                    assert(map@ == m0.update(j as int, map@[j as int]));
                    assert forall|i: int|
                        #![trigger final(map)@[i]]
                        0 <= i < map@.len() implies exists|jj: int|
                        0 <= jj < m0.len() && map@[i].0@ == m0[jj].0@ by {
                        if i != j {
                            assert(map@[i] == m0[i]);
                        } else {
                            assert(map@[i].0@ == m0[j as int].0@);
                        }
                    }
                }
            }
        },
    }
}

/// The severity a set of per-severity counts implies: the highest severity
/// with a live signal, or `Nominal` when there is none.
pub open spec fn spec_state_of(counts: Seq<usize>) -> Health {
    if counts[4] > 0 {
        Health::Unrecoverable
    } else if counts[3] > 0 {
        Health::Down
    } else if counts[2] > 0 {
        Health::Critical
    } else if counts[1] > 0 {
        Health::Degraded
    } else {
        Health::Nominal
    }
}

/// A component's state, tracking the aggregate health of its publishers.
///
/// For each severity it records how many publisher signals sit there
/// (`counts`) and which signals those are, with multiplicities (`signals`).
/// `cached` remembers the last computed aggregate severity and is dropped on
/// every mutation.
#[derive(Debug)]
pub struct ComponentState {
    pub name: String,
    pub cached: Option<Health>,
    pub counts: Vec<usize>,
    pub signals: Vec<Vec<(Signal, usize)>>,
}

impl ComponentState {
    /// The internal invariant: five counts and five buckets, each bucket
    /// valid for its severity, each count the total multiplicity of its
    /// bucket, and the cache — when present — the severity the counts imply.
    pub open spec fn wf(&self) -> bool {
        &&& self.counts@.len() == 5
        &&& self.signals@.len() == 5
        &&& forall|i: int| 0 <= i < 5 ==> bucket_wf(#[trigger] self.signals@[i]@, i)
        &&& forall|i: int|
            0 <= i < 5 ==> (#[trigger] self.counts@[i]) as int == bucket_total(self.signals@[i]@)
        &&& match self.cached {
            Some(h) => h == spec_state_of(self.counts@),
            None => true,
        }
    }

    /// The aggregate severity this state currently implies.
    pub open spec fn spec_state(&self) -> Health {
        spec_state_of(self.counts@)
    }

    /// A fresh state for a component with the given name: no signals, all
    /// counts zero.
    pub fn new(name: String) -> (s: Self)
        ensures
            s.wf(),
            s.name@ == name@,
            s.cached is None,
            forall|i: int| 0 <= i < 5 ==> s.counts@[i] == 0,
            forall|i: int| 0 <= i < 5 ==> (#[trigger] s.signals@[i]@).len() == 0,
            s.spec_state() == Health::Nominal,
    {
        let mut counts: Vec<usize> = Vec::new();
        counts.push(0);
        counts.push(0);
        counts.push(0);
        counts.push(0);
        counts.push(0);
        let mut signals: Vec<Vec<(Signal, usize)>> = Vec::new();
        signals.push(Vec::new());
        signals.push(Vec::new());
        signals.push(Vec::new());
        signals.push(Vec::new());
        signals.push(Vec::new());
        ComponentState { name, cached: None, counts, signals }
    }

    /// Whether the state tracks a publisher signal with this content.
    pub fn contains_signal(&self, signal: &Signal) -> (r: bool)
        requires
            self.wf(),
        ensures
            r == bucket_has(self.signals@[signal@.state.severity()]@, signal@),
    {
        let idx = signal.state().index();
        match find_signal(&self.signals[idx], signal) {
            Some(j) => {
                proof {
                    assert(bucket_has(self.signals@[idx as int]@, signal@));
                }
                true
            },
            None => false,
        }
    }

    /// Incorporate a publisher's signal into the component's aggregate state.
    pub fn add_publisher_signal(&mut self, signal: Signal)
        requires
            old(self).wf(),
            old(self).counts@[signal@.state.severity()] < usize::MAX,
        ensures
            final(self).wf(),
            final(self).name == old(self).name,
            final(self).cached is None,
            final(self).counts@[signal@.state.severity()] == old(self).counts@[signal@.state.severity()] + 1,
            forall|i: int|
                0 <= i < 5 && i != signal@.state.severity() ==> #[trigger] final(self).counts@[i]
                    == old(self).counts@[i],
            forall|i: int|
                0 <= i < 5 && i != signal@.state.severity() ==> #[trigger] final(self).signals@[i]
                    == old(self).signals@[i],
            bucket_mult(final(self).signals@[signal@.state.severity()]@, signal@) == bucket_mult(
                old(self).signals@[signal@.state.severity()]@,
                signal@,
            ) + 1,
            forall|k: SignalView|
                k != signal@ ==> #[trigger] bucket_mult(
                    final(self).signals@[signal@.state.severity()]@,
                    k,
                ) == bucket_mult(old(self).signals@[signal@.state.severity()]@, k),
    {
        self.cached = None;
        let idx = signal.state().index();
        let c = self.counts[idx];
        self.counts[idx] = c + 1;
        let ghost b0 = self.signals@[idx as int]@;
        let bucket = &mut self.signals[idx];
        match find_signal(bucket, &signal) {
            Some(j) => {
                let m = bucket[j].1;
                proof {
                    lemma_bucket_entry_le_total(b0, j as int);
                    lemma_bucket_mult_entry(b0, j as int);
                }
                bucket[j] = (signal, m + 1);
                proof {
                    lemma_bucket_update(b0, j as int, bucket@[j as int]);
                }
            },
            None => {
                bucket.push((signal, 1));
                proof {
                    lemma_bucket_push(b0, bucket@[b0.len() as int]);
                    lemma_bucket_mult_absent(b0, bucket@[b0.len() as int].0@);
                }
            },
        }
    }

    /// Remove a publisher's signal from the component's aggregate state. The
    /// signal must currently be tracked: callers pair each removal with an
    /// earlier addition.
    pub fn remove_publisher_signal(&mut self, signal: Signal)
        requires
            old(self).wf(),
            bucket_has(old(self).signals@[signal@.state.severity()]@, signal@),
        ensures
            final(self).wf(),
            final(self).name == old(self).name,
            final(self).cached is None,
            final(self).counts@[signal@.state.severity()] == old(self).counts@[signal@.state.severity()] - 1,
            forall|i: int|
                0 <= i < 5 && i != signal@.state.severity() ==> #[trigger] final(self).counts@[i]
                    == old(self).counts@[i],
            forall|i: int|
                0 <= i < 5 && i != signal@.state.severity() ==> #[trigger] final(self).signals@[i]
                    == old(self).signals@[i],
            bucket_mult(final(self).signals@[signal@.state.severity()]@, signal@) == bucket_mult(
                old(self).signals@[signal@.state.severity()]@,
                signal@,
            ) - 1,
            forall|k: SignalView|
                k != signal@ ==> #[trigger] bucket_mult(
                    final(self).signals@[signal@.state.severity()]@,
                    k,
                ) == bucket_mult(old(self).signals@[signal@.state.severity()]@, k),
    {
        let ghost sev = signal@.state.severity();
        let ghost b0 = self.signals@[sev]@;
        proof {
            let j = choose|j: int| 0 <= j < b0.len() && b0[j].0@ == signal@;
            lemma_bucket_mult_entry(b0, j);
            lemma_bucket_entry_le_total(b0, j);
        }
        self.cached = None;
        let idx = signal.state().index();
        let c = self.counts[idx];
        self.counts[idx] = c - 1;
        dec_or_remove(&mut self.signals[idx], signal);
    }

    /// Get the component's aggregate health state: the most severe state with
    /// a live publisher signal, or `Nominal` when there is none. Computes and
    /// caches the answer when no cached value is present.
    pub fn state(&mut self) -> (h: Health)
        requires
            old(self).wf(),
        ensures
            final(self).wf(),
            h == old(self).spec_state(),
            final(self).name == old(self).name,
            final(self).counts == old(self).counts,
            final(self).signals == old(self).signals,
            final(self).cached == Some(h),
    {
        match self.cached {
            Some(h) => h,
            None => {
                let h = if self.counts[4] > 0 {
                    Health::Unrecoverable
                } else if self.counts[3] > 0 {
                    Health::Down
                } else if self.counts[2] > 0 {
                    Health::Critical
                } else if self.counts[1] > 0 {
                    Health::Degraded
                } else {
                    Health::Nominal
                };
                self.cached = Some(h);
                h
            },
        }
    }

    /// Snapshot the component's health. Counts are always filled in; the
    /// per-severity signal listings only for severities the filter selects.
    pub fn make_report(&mut self, filter: Filter) -> (r: Report)
        requires
            old(self).wf(),
        ensures
            final(self).wf(),
            final(self).name == old(self).name,
            final(self).counts == old(self).counts,
            final(self).signals == old(self).signals,
            r.wf(),
            r@.name == old(self).name@,
            r@.state == old(self).spec_state(),
            r@.counts == old(self).counts@,
            forall|i: int|
                0 <= i < 5 ==> #[trigger] r@.signals[i] == if filter.spec_includes(
                    Health::from_severity(i),
                ) {
                    bucket_views(old(self).signals@[i]@)
                } else {
                    Seq::<(SignalView, int)>::empty()
                },
    {
        let state = self.state();
        let mut signals: Vec<Vec<(Signal, usize)>> = Vec::new();
        let mut i: usize = 0;
        while i < 5
            invariant
                self.wf(),
                0 <= i <= 5,
                signals@.len() == i,
                forall|j: int|
                    0 <= j < i ==> bucket_views(#[trigger] signals@[j]@) == if filter.spec_includes(
                        Health::from_severity(j),
                    ) {
                        bucket_views(self.signals@[j]@)
                    } else {
                        Seq::<(SignalView, int)>::empty()
                    },
            decreases 5 - i,
        {
            if filter.includes(Health::at_index(i)) {
                signals.push(clone_bucket(&self.signals[i]));
            } else {
                signals.push(Vec::new());
                assert(bucket_views(signals@[i as int]@) =~= Seq::<(SignalView, int)>::empty());
            }
            i += 1;
        }
        let r = Report {
            name: self.name.clone(),
            state,
            counts: clone_counts(&self.counts),
            signals,
        };
        r
    }
}

/// In every well-formed component state, each severity's count equals the
/// total multiplicity of the signals tracked at that severity, and no tracked
/// signal has multiplicity zero.
pub proof fn lemma_counts_match_signals(s: &ComponentState)
    requires
        s.wf(),
    ensures
        forall|i: int|
            0 <= i < 5 ==> (#[trigger] s.counts@[i]) as int == bucket_total(s.signals@[i]@),
        forall|i: int, j: int|
            0 <= i < 5 && 0 <= j < s.signals@[i]@.len() ==> (#[trigger] s.signals@[i]@[j]).1 >= 1,
{
    assert forall|i: int, j: int|
        0 <= i < 5 && 0 <= j < s.signals@[i]@.len() implies (#[trigger] s.signals@[i]@[j]).1
        >= 1 by {
        assert(bucket_wf(s.signals@[i]@, i));
    }
}

/// A component's computed severity is the most severe one with a live
/// publisher signal: no live signal is more severe, and unless the answer is
/// `Nominal`, some live signal has exactly that severity.
pub proof fn lemma_state_is_max_severity(s: &ComponentState)
    requires
        s.wf(),
    ensures
        forall|i: int| 0 <= i < 5 && s.counts@[i] > 0 ==> i <= s.spec_state().severity(),
        s.spec_state().severity() > 0 ==> s.counts@[s.spec_state().severity()] > 0,
        s.spec_state() == Health::Nominal ==> forall|i: int| 1 <= i < 5 ==> s.counts@[i] == 0,
        forall|i: int, j: int|
            0 <= i < 5 && 0 <= j < s.signals@[i]@.len()
                ==> (#[trigger] s.signals@[i]@[j]).0@.state.severity()
                <= s.spec_state().severity(),
        s.spec_state().severity() > 0 ==> s.signals@[s.spec_state().severity()]@.len() > 0,
{
    assert forall|i: int, j: int|
        0 <= i < 5 && 0 <= j < s.signals@[i]@.len() implies (#[trigger] s.signals@[i]@[
        j]).0@.state.severity() <= s.spec_state().severity() by {
        assert(bucket_wf(s.signals@[i]@, i));
        lemma_bucket_entry_le_total(s.signals@[i]@, j);
        assert(s.counts@[i] > 0);
    }
    if s.spec_state().severity() > 0 {
        let sev = s.spec_state().severity();
        assert(bucket_total(s.signals@[sev]@) > 0);
        if s.signals@[sev]@.len() == 0 {
            assert(bucket_total(s.signals@[sev]@) == 0);
        }
    }
}

} // verus!

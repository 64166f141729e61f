//! The aggregator's decision logic: combining component severities into the
//! overall application health.

use crate::health::Health;
use vstd::prelude::*;

verus! {

/// The aggregator's debounce interval, in milliseconds: the overall health is
/// re-broadcast at most once per second per burst of component changes.
pub const MIN_DEBOUNCE_INTERVAL_MILLIS: u64 = 1000;

/// Whether `h` is the maximum severity among the given states: no state is
/// more severe, and `h` either occurs among them or is `Nominal` (the value
/// for an empty or all-nominal fleet).
pub open spec fn is_aggregate_health(states: Seq<Health>, h: Health) -> bool {
    &&& forall|i: int| 0 <= i < states.len() ==> (#[trigger] states[i]).severity() <= h.severity()
    &&& (h == Health::Nominal || exists|i: int| 0 <= i < states.len() && states[i] == h)
}

/// The most severe health state among the given component states; `Nominal`
/// when there are none or all are nominal.
pub fn get_aggregate_health_state(states: &Vec<Health>) -> (h: Health)
    ensures
        is_aggregate_health(states@, h),
{
    let mut state = Health::Nominal;
    let mut i: usize = 0;
    while i < states.len()
        invariant
            0 <= i <= states@.len(),
            forall|j: int| 0 <= j < i ==> (#[trigger] states@[j]).severity() <= state.severity(),
            state == Health::Nominal || exists|j: int| 0 <= j < i && states@[j] == state,
        decreases states@.len() - i,
    {
        let component_state = states[i];
        if state.index() < component_state.index() {
            state = component_state;
        }
        i += 1;
    }
    state
}

/// The aggregate severity is unique: only one health state satisfies the
/// aggregate description for a given fleet.
pub proof fn lemma_aggregate_health_unique(states: Seq<Health>, h1: Health, h2: Health)
    requires
        is_aggregate_health(states, h1),
        is_aggregate_health(states, h2),
    ensures
        h1 == h2,
{
    if h1 != h2 {
        if h1.severity() < h2.severity() {
            let i = choose|i: int| 0 <= i < states.len() && states[i] == h2;
            assert(states[i].severity() <= h1.severity());
        } else if h2.severity() < h1.severity() {
            let i = choose|i: int| 0 <= i < states.len() && states[i] == h1;
            assert(states[i].severity() <= h2.severity());
        } else {
            crate::health::lemma_severity_roundtrip(h1);
            crate::health::lemma_severity_roundtrip(h2);
        }
    }
}

} // verus!
